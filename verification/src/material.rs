//! Material instances as the frame orchestrator sees them: a named bundle
//! of built pipeline bindings, looked up by (render pass, pipeline) pair.

use vstd::prelude::*;
use crate::framebuffer::PipelineBindingData;
use crate::render_pass::RenderPassPipelineDataName;

verus! {

pub struct MaterialInstanceData {
    _material_instance_data_name: String,
    _pipeline_binding_data_list: Vec<PipelineBindingData>,
}

impl MaterialInstanceData {
    /// The pipeline bindings of this material instance, in order.
    pub closed spec fn spec_pipeline_binding_datas(self) -> Seq<PipelineBindingData> {
        self._pipeline_binding_data_list@
    }

    /// Each (pass, pipeline) pair occurs at most once, so a lookup has one
    /// answer, and each binding is replicated per swapchain image.
    pub open spec fn wf(self) -> bool {
        &&& forall|i: int, j: int|
            0 <= i < j < self.spec_pipeline_binding_datas().len()
                ==> self.spec_pipeline_binding_datas()[i]._render_pass_pipeline_data_name
                != self.spec_pipeline_binding_datas()[j]._render_pass_pipeline_data_name
        &&& forall|i: int|
            0 <= i < self.spec_pipeline_binding_datas().len() ==> (
            #[trigger] self.spec_pipeline_binding_datas()[i]).wf()
    }

    pub fn create_material_instance(
        material_instance_name: &String,
        pipeline_binding_data_list: Vec<PipelineBindingData>,
    ) -> (r: MaterialInstanceData)
        ensures
            r.spec_pipeline_binding_datas() == pipeline_binding_data_list@,
    {
        MaterialInstanceData {
            _material_instance_data_name: material_instance_name.clone(),
            _pipeline_binding_data_list: pipeline_binding_data_list,
        }
    }

    /// Whether this instance holds a binding for the given pair.
    pub fn has_pipeline_binding_data(
        &self,
        render_pass_pipeline_data_name: RenderPassPipelineDataName,
    ) -> (r: bool)
        ensures
            r == exists|i: int|
                0 <= i < self.spec_pipeline_binding_datas().len() && (
                #[trigger] self.spec_pipeline_binding_datas()[i])._render_pass_pipeline_data_name
                    == render_pass_pipeline_data_name,
    {
        let n = self._pipeline_binding_data_list.len();
        let mut i: usize = 0;
        while i < n
            invariant
                i <= n,
                n == self.spec_pipeline_binding_datas().len(),
                forall|a: int|
                    0 <= a < i ==> (
                    #[trigger] self.spec_pipeline_binding_datas()[a])._render_pass_pipeline_data_name
                        != render_pass_pipeline_data_name,
            decreases n - i,
        {
            if self._pipeline_binding_data_list[i]._render_pass_pipeline_data_name
                == render_pass_pipeline_data_name {
                return true;
            }
            i = i + 1;
        }
        false
    }

    /// The binding built for the given (pass, pipeline) pair.  Asking for a
    /// pair this instance was not built with is a programmer error, ruled
    /// out by the precondition.
    pub fn get_pipeline_binding_data(
        &self,
        render_pass_pipeline_data_name: RenderPassPipelineDataName,
    ) -> (r: &PipelineBindingData)
        requires
            exists|i: int|
                0 <= i < self.spec_pipeline_binding_datas().len() && (
                #[trigger] self.spec_pipeline_binding_datas()[i])._render_pass_pipeline_data_name
                    == render_pass_pipeline_data_name,
        ensures
            r._render_pass_pipeline_data_name == render_pass_pipeline_data_name,
            exists|i: int|
                0 <= i < self.spec_pipeline_binding_datas().len() && *r
                    == #[trigger] self.spec_pipeline_binding_datas()[i],
    {
        let n = self._pipeline_binding_data_list.len();
        let mut i: usize = 0;
        while i < n
            invariant
                i <= n,
                n == self.spec_pipeline_binding_datas().len(),
                exists|a: int|
                    i <= a < self.spec_pipeline_binding_datas().len() && (
                    #[trigger] self.spec_pipeline_binding_datas()[a])._render_pass_pipeline_data_name
                        == render_pass_pipeline_data_name,
            decreases n - i,
        {
            if self._pipeline_binding_data_list[i]._render_pass_pipeline_data_name
                == render_pass_pipeline_data_name {
                return &self._pipeline_binding_data_list[i];
            }
            i = i + 1;
        }
        unreached()
    }
}

} // verus!
