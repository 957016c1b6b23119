//! Meshes as the frame orchestrator sees them: an ordered list of geometry
//! buffers, the first of which is the default one a full-screen draw uses.

use vstd::prelude::*;

verus! {

/// The observable shape of one uploaded geometry buffer: how many vertices
/// and indices a draw of it covers.
#[derive(Clone, Debug)]
pub struct GeometryData {
    pub _geometry_name: String,
    pub _vertex_count: u32,
    pub _vertex_index_count: u32,
}

pub struct MeshData {
    _name: String,
    _bound_box: bool,
    _skeleton_datas: Vec<bool>,
    _animation_datas: Vec<bool>,
    _geometry_buffer_datas: Vec<GeometryData>,
}

impl MeshData {
    /// The geometry buffers of this mesh, in order.
    pub closed spec fn spec_geometry_datas(self) -> Seq<GeometryData> {
        self._geometry_buffer_datas@
    }

    pub fn new_mesh_data(mesh_name: &String, geometry_buffer_datas: Vec<GeometryData>) -> (r:
        MeshData)
        ensures
            r.spec_geometry_datas() == geometry_buffer_datas@,
    {
        MeshData {
            _name: mesh_name.clone(),
            _bound_box: false,
            _skeleton_datas: Vec::new(),
            _animation_datas: Vec::new(),
            _geometry_buffer_datas: geometry_buffer_datas,
        }
    }

    pub fn get_geometry_data_count(&self) -> (r: u32)
        requires
            self.spec_geometry_datas().len() <= u32::MAX,
        ensures
            r == self.spec_geometry_datas().len(),
    {
        self._geometry_buffer_datas.len() as u32
    }

    pub fn get_geomtry_datas(&self) -> (r: &Vec<GeometryData>)
        ensures
            r@ == self.spec_geometry_datas(),
    {
        &self._geometry_buffer_datas
    }

    /// The geometry a plain draw of this mesh uses; a mesh without geometry
    /// has none.
    pub fn get_default_geometry_data(&self) -> (r: &GeometryData)
        requires
            0 < self.spec_geometry_datas().len(),
        ensures
            *r == self.spec_geometry_datas()[0],
    {
        &self._geometry_buffer_datas[0]
    }

    pub fn get_geomtry_data(&self, index: u32) -> (r: &GeometryData)
        requires
            index < self.spec_geometry_datas().len(),
        ensures
            *r == self.spec_geometry_datas()[index as int],
    {
        &self._geometry_buffer_datas[index as usize]
    }

    /// A mesh holds no per-frame state; there is nothing to bring forward.
    pub fn update_mesh_data(&self) {
    }
}

} // verus!
