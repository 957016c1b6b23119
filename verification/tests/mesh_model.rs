use render_core::material::MaterialInstanceData;
use render_core::mesh::{GeometryData, MeshData};
use render_core::model::ModelData;

fn quad_geometry() -> GeometryData {
    GeometryData {
        _geometry_name: String::from("quad"),
        _vertex_count: 4,
        _vertex_index_count: 6,
    }
}

fn cube_geometry() -> GeometryData {
    GeometryData {
        _geometry_name: String::from("cube"),
        _vertex_count: 24,
        _vertex_index_count: 36,
    }
}

#[test]
fn mesh_exposes_its_geometry_in_order() {
    let mesh = MeshData::new_mesh_data(
        &String::from("scene_mesh"),
        vec![quad_geometry(), cube_geometry()],
    );
    assert_eq!(mesh.get_geometry_data_count(), 2);
    assert_eq!(mesh.get_default_geometry_data()._geometry_name, "quad");
    assert_eq!(mesh.get_geomtry_data(1)._geometry_name, "cube");
    assert_eq!(mesh.get_geomtry_datas().len(), 2);
    mesh.update_mesh_data();
}

#[test]
fn model_pairs_mesh_and_material_instances() {
    let mesh = MeshData::new_mesh_data(&String::from("scene_mesh"), vec![quad_geometry()]);
    let material =
        MaterialInstanceData::create_material_instance(&String::from("render_object"), vec![]);
    let mut model = ModelData::new_model_data(String::from("scene_model"), mesh, vec![material]);
    assert_eq!(model.get_material_instance_data_count(), 1);
    assert_eq!(model.get_mesh_data().get_geometry_data_count(), 1);
    assert_eq!(model.get_material_instance_datas().len(), 1);
    let _ = model.get_material_instance_data(0);

    let replacement =
        MaterialInstanceData::create_material_instance(&String::from("render_debug"), vec![]);
    let other =
        MaterialInstanceData::create_material_instance(&String::from("render_final"), vec![]);
    model.set_material_instance_datas(vec![replacement, other]);
    assert_eq!(model.get_material_instance_data_count(), 2);
    model.update_model_data();
    model.destroy_model_data();
}
