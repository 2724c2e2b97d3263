use gravity_sim::render::{Pipeline, Shader};

#[test]
fn shader_keeps_name_and_source() {
    let shader = Shader::new("solid", "fn vs_main() {}");
    assert_eq!(shader.name(), "solid");
    assert_eq!(shader.source(), "fn vs_main() {}");
}

#[test]
fn pipeline_variants_are_distinct() {
    assert_ne!(Pipeline::Wireframe, Pipeline::Solid);
    assert_ne!(Pipeline::Solid, Pipeline::World);
    let p = Pipeline::World;
    let q = p;
    assert_eq!(p, q);
}
