use vstd::prelude::*;

verus! {

/// A position in device pixels.
#[derive(Clone, Copy, Debug, PartialEq, Eq, Structural)]
pub struct Point {
    pub x: i32,
    pub y: i32,
}

/// A colour as red, green, blue and alpha bytes.
#[derive(Clone, Copy, Debug, PartialEq, Eq, Structural)]
pub struct Rgba {
    pub r: u8,
    pub g: u8,
    pub b: u8,
    pub a: u8,
}

/// One point of a stroke, with the colour it was drawn in.
#[derive(Clone, Copy, Debug, PartialEq, Eq, Structural)]
pub struct Vertex {
    pub position: Point,
    pub color: Rgba,
}

/// An axis-aligned box: its top-left corner, width and height.
#[derive(Clone, Copy, Debug, PartialEq, Eq, Structural)]
pub struct Rect {
    pub x: i32,
    pub y: i32,
    pub width: i32,
    pub height: i32,
}

impl Rect {
    /// The box holds `p`, edges included.
    pub open spec fn spec_contains(self, p: Point) -> bool {
        &&& self.x <= p.x <= self.x + self.width
        &&& self.y <= p.y <= self.y + self.height
    }

    pub fn contains(&self, p: Point) -> (r: bool)
        ensures
            r == self.spec_contains(p),
    {
        let px = p.x as i64;
        let py = p.y as i64;
        let x = self.x as i64;
        let y = self.y as i64;
        x <= px && px <= x + self.width as i64 && y <= py && py <= y + self.height as i64
    }
}

/// A rectangle given by two opposite corners.
#[derive(Clone, Copy, Debug, PartialEq, Eq, Structural)]
pub struct Rectangle {
    pub first: Point,
    pub last: Point,
    pub color: Rgba,
}

impl Rectangle {
    /// The outline as a line list: four edges, two vertices each.
    pub open spec fn outline(self) -> Seq<Vertex> {
        let c = self.color;
        let (x1, y1, x2, y2) = (self.first.x, self.first.y, self.last.x, self.last.y);
        let v = |x: i32, y: i32| Vertex { position: Point { x, y }, color: c };
        seq![
            v(x1, y2), v(x2, y2),
            v(x2, y2), v(x2, y1),
            v(x2, y1), v(x1, y1),
            v(x1, y1), v(x1, y2),
        ]
    }

    pub fn to_vertices(self) -> (r: Vec<Vertex>)
        ensures
            r@ == self.outline(),
    {
        let c = self.color;
        let (x1, y1) = (self.first.x, self.first.y);
        let (x2, y2) = (self.last.x, self.last.y);
        let r = vec![
            Vertex { position: Point { x: x1, y: y2 }, color: c },
            Vertex { position: Point { x: x2, y: y2 }, color: c },
            Vertex { position: Point { x: x2, y: y2 }, color: c },
            Vertex { position: Point { x: x2, y: y1 }, color: c },
            Vertex { position: Point { x: x2, y: y1 }, color: c },
            Vertex { position: Point { x: x1, y: y1 }, color: c },
            Vertex { position: Point { x: x1, y: y1 }, color: c },
            Vertex { position: Point { x: x1, y: y2 }, color: c },
        ];
        assert(r@ =~= self.outline());
        r
    }
}

/// A text label. `pending` marks the entry that is open for typing.
#[derive(Clone, Debug)]
pub struct TextEntries {
    pub position: Point,
    pub color: Rgba,
    pub text: String,
    pub pending: bool,
    pub bounds: Rect,
    pub font_size: i32,
}

impl TextEntries {
    /// An empty entry, open for typing, at the origin with empty bounds.
    pub fn null(color: Rgba, font_size: i32) -> (r: Self)
        ensures
            r.position == (Point { x: 0, y: 0 }),
            r.color == color,
            r.text@ == Seq::<char>::empty(),
            r.pending,
            r.bounds == (Rect { x: 0, y: 0, width: 0, height: 0 }),
            r.font_size == font_size,
    {
        TextEntries {
            font_size,
            position: Point { x: 0, y: 0 },
            color,
            text: String::new(),
            pending: true,
            bounds: Rect { x: 0, y: 0, width: 0, height: 0 },
        }
    }

    /// A field-for-field copy.
    pub fn snapshot(&self) -> (r: Self)
        ensures
            r == *self,
    {
        TextEntries {
            position: self.position,
            color: self.color,
            text: self.text.clone(),
            pending: self.pending,
            bounds: self.bounds,
            font_size: self.font_size,
        }
    }
}

/// The identity of an action: the 128 bits of a UUID.
#[derive(Clone, Copy, Debug, PartialEq, Eq, Hash, Structural)]
pub struct ActionId {
    pub value: u128,
}

/// What a completed gesture drew.
#[derive(Clone, Debug)]
pub enum ActionType {
    Stroke(Vec<Vertex>),
    Text(TextEntries),
    Shapes(Rectangle),
}

impl ActionType {
    /// A copy whose contents equal the original's.
    pub fn snapshot(&self) -> (r: Self)
        ensures
            r.same_as(*self),
    {
        match self {
            ActionType::Stroke(v) => ActionType::Stroke(copy_vertices(v)),
            ActionType::Text(t) => ActionType::Text(t.snapshot()),
            ActionType::Shapes(s) => ActionType::Shapes(*s),
        }
    }

    /// Equal contents: the same variant, holding the same values.
    pub open spec fn same_as(self, o: Self) -> bool {
        match (self, o) {
            (ActionType::Stroke(a), ActionType::Stroke(b)) => a@ == b@,
            (ActionType::Text(a), ActionType::Text(b)) => a == b,
            (ActionType::Shapes(a), ActionType::Shapes(b)) => a == b,
            _ => false,
        }
    }
}

/// A copy of a list of vertices.
pub fn copy_vertices(v: &Vec<Vertex>) -> (r: Vec<Vertex>)
    ensures
        r@ == v@,
{
    let mut r: Vec<Vertex> = Vec::with_capacity(v.len());
    let mut i: usize = 0;
    while i < v.len()
        invariant
            i <= v.len(),
            r@ == v@.subrange(0, i as int),
        decreases v.len() - i,
    {
        r.push(v[i]);
        i = i + 1;
        assert(r@ =~= v@.subrange(0, i as int));
    }
    assert(r@ =~= v@);
    r
}

/// A completed gesture with its identity.
#[derive(Clone, Debug)]
pub struct Action {
    pub id: ActionId,
    pub action_type: ActionType,
}

} // verus!
