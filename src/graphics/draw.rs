use vstd::prelude::*;

verus! {

/// A queued write request: a rectangle of pixels, `width` per row, and the
/// plane that orders it among the other requests of a frame.
#[derive(Debug)]
pub struct DrawCommand {
    pub x: u32,
    pub y: u32,
    pub plane: u32,
    pub width: u32,
    pub height: u32,
    pub pixels: Vec<u32>,
}

impl DrawCommand {
    pub fn new(x: u32, y: u32, plane: u32, width: u32, height: u32, pixels: Vec<u32>) -> (r: Self)
        ensures
            r.x == x,
            r.y == y,
            r.plane == plane,
            r.width == width,
            r.height == height,
            r.pixels@ == pixels@,
    {
        DrawCommand { x, y, plane, width, height, pixels }
    }

    pub fn set_x(&mut self, x: u32)
        ensures
            *final(self) == (DrawCommand { x, ..*old(self) }),
    {
        self.x = x;
    }

    pub fn y(&self) -> (r: u32)
        ensures
            r == self.y,
    {
        self.y
    }

    pub fn set_plane(&mut self, plane: u32)
        ensures
            *final(self) == (DrawCommand { plane, ..*old(self) }),
    {
        self.plane = plane;
    }

    pub fn set_width(&mut self, width: u32)
        ensures
            *final(self) == (DrawCommand { width, ..*old(self) }),
    {
        self.width = width;
    }

    pub fn set_height(&mut self, height: u32)
        ensures
            *final(self) == (DrawCommand { height, ..*old(self) }),
    {
        self.height = height;
    }

    pub fn set_pixels(&mut self, pixels: Vec<u32>)
        ensures
            *final(self) == (DrawCommand { pixels, ..*old(self) }),
    {
        self.pixels = pixels;
    }
}

/// Request `a` is applied before request `b`: a lower plane first, and on
/// equal planes the earlier submission first.
pub open spec fn draws_before(planes: Seq<u32>, a: int, b: int) -> bool {
    planes[a] < planes[b] || (planes[a] == planes[b] && a < b)
}

/// `order` lists each index below `n` once, in drawing order.
pub open spec fn is_draw_order(planes: Seq<u32>, order: Seq<usize>) -> bool {
    &&& order.len() == planes.len()
    &&& forall|k: int| 0 <= k < order.len() ==> order[k] < planes.len()
    &&& forall|k1: int, k2: int|
        0 <= k1 < k2 < order.len() ==> draws_before(planes, order[k1] as int, order[k2] as int)
}

/// The order in which requests with these planes are applied: a stable sort
/// by plane, ascending.
pub fn draw_order(planes: &[u32]) -> (r: Vec<usize>)
    ensures
        is_draw_order(planes@, r@),
{
    let n = planes.len();
    let mut order: Vec<usize> = Vec::new();
    let mut i: usize = 0;
    while i < n
        invariant
            n == planes@.len(),
            i <= n,
            order@.len() == i,
            forall|k: int| 0 <= k < order@.len() ==> order@[k] < i,
            forall|k1: int, k2: int|
                0 <= k1 < k2 < order@.len() ==> draws_before(
                    planes@,
                    order@[k1] as int,
                    order@[k2] as int,
                ),
        decreases n - i,
    {
        let p = planes[i];
        let mut j: usize = order.len();
        while j > 0 && planes[order[j - 1]] > p
            invariant
                n == planes@.len(),
                i < n,
                p == planes@[i as int],
                order@.len() == i,
                j <= order@.len(),
                forall|k: int| 0 <= k < order@.len() ==> order@[k] < i,
                forall|k: int| j <= k < order@.len() ==> planes@[order@[k] as int] > p,
            decreases j,
        {
            j = j - 1;
        }
        let ghost before = order@;
        order.insert(j, i);
        proof {
            assert forall|k1: int, k2: int| 0 <= k1 < k2 < order@.len() implies draws_before(
                planes@,
                order@[k1] as int,
                order@[k2] as int,
            ) by {
                if k1 < j && k2 == j {
                    if k1 < j - 1 {
                        assert(draws_before(planes@, before[k1] as int, before[j - 1] as int));
                    }
                } else if k1 < j && k2 > j {
                    assert(order@[k2] == before[k2 - 1]);
                    assert(draws_before(planes@, before[k1] as int, before[k2 - 1] as int));
                } else if k1 > j {
                    assert(draws_before(planes@, before[k1 - 1] as int, before[k2 - 1] as int));
                }
            }
        }
        i = i + 1;
    }
    order
}

} // verus!
