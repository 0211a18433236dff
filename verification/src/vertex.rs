use vstd::prelude::*;

verus! {

/// A mesh vertex on the model-space lattice: each coordinate counts half
/// units, so `[-1, 1, 1]` is the point (-0.5, 0.5, 0.5).
#[derive(Debug, Clone, Copy)]
pub struct MyVertex {
    pub position: [i32; 3],
}

impl MyVertex {
    /// The vertex's position as a point of the lattice.
    pub open spec fn point(self) -> (int, int, int) {
        (self.position@[0] as int, self.position@[1] as int, self.position@[2] as int)
    }

    /// The vertex at lattice coordinates `(x, y, z)`.
    pub fn new(x: i32, y: i32, z: i32) -> (vertex: Self)
        ensures
            vertex.point() == (x as int, y as int, z as int),
    {
        MyVertex { position: [x, y, z] }
    }
}

} // verus!
