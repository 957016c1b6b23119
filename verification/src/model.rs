//! Models: a mesh paired with one material instance per geometry, the unit
//! the scene hands to the frame orchestrator.

use vstd::prelude::*;
use crate::material::MaterialInstanceData;
use crate::mesh::MeshData;

verus! {

pub struct ModelCreateInfo {
    pub _model_data_name: String,
    pub _mesh_data: MeshData,
    pub _material_instance_datas: Vec<MaterialInstanceData>,
}

pub struct ModelData {
    _model_data_name: String,
    _mesh_data: MeshData,
    _material_instance_datas: Vec<MaterialInstanceData>,
}

impl ModelData {
    /// The material instances of this model, in order.
    pub closed spec fn spec_material_instance_datas(self) -> Seq<MaterialInstanceData> {
        self._material_instance_datas@
    }

    /// The mesh of this model.
    pub closed spec fn spec_mesh_data(self) -> MeshData {
        self._mesh_data
    }

    pub fn new_model_data(
        model_name: String,
        mesh_data: MeshData,
        material_instance_datas: Vec<MaterialInstanceData>,
    ) -> (r: ModelData)
        ensures
            r.spec_mesh_data() == mesh_data,
            r.spec_material_instance_datas() == material_instance_datas@,
    {
        ModelData {
            _model_data_name: model_name,
            _mesh_data: mesh_data,
            _material_instance_datas: material_instance_datas,
        }
    }

    /// A model owns no device objects of its own; dropping it releases
    /// nothing.
    pub fn destroy_model_data(&self) {
    }

    pub fn get_mesh_data(&self) -> (r: &MeshData)
        ensures
            *r == self.spec_mesh_data(),
    {
        &self._mesh_data
    }

    pub fn get_material_instance_data_count(&self) -> (r: usize)
        ensures
            r == self.spec_material_instance_datas().len(),
    {
        self._material_instance_datas.len()
    }

    pub fn get_material_instance_datas(&self) -> (r: &Vec<MaterialInstanceData>)
        ensures
            r@ == self.spec_material_instance_datas(),
    {
        &self._material_instance_datas
    }

    pub fn set_material_instance_datas(
        &mut self,
        material_instance_datas: Vec<MaterialInstanceData>,
    )
        ensures
            final(self).spec_material_instance_datas() == material_instance_datas@,
            final(self).spec_mesh_data() == old(self).spec_mesh_data(),
    {
        self._material_instance_datas = material_instance_datas;
    }

    pub fn get_material_instance_data(&self, index: usize) -> (r: &MaterialInstanceData)
        requires
            index < self.spec_material_instance_datas().len(),
        ensures
            *r == self.spec_material_instance_datas()[index as int],
    {
        &self._material_instance_datas[index]
    }

    /// A model holds no per-frame state; there is nothing to bring forward.
    pub fn update_model_data(&self) {
    }
}

} // verus!
