use webgl_core::renderer::webgl::attribute::{instanced_buffer_pointers, array_buffer_pointer, AttributeBinding};
use webgl_core::renderer::webgl::buffer::{BufferComponentSize, BufferDataType};
use webgl_core::renderer::webgl::program::{
    build_defines, expand_includes, expand_source, include_name, Define, ProgramSnippets, ProgramSource,
};
use webgl_core::renderer::webgl::uniform::UniformInternalBinding;
use webgl_core::renderer::webgl::error::Error;
use webgl_core::renderer::webgl::program_cache::{use_program, ProgramCache};

#[test]
fn test_define_build() {
    let with_value = Define::WithValue("LIGHTS".to_string(), "4".to_string());
    let without_value = Define::WithoutValue("USE_FOG".to_string());
    assert_eq!(with_value.name(), "LIGHTS");
    assert_eq!(with_value.value(), Some("4"));
    assert_eq!(without_value.value(), None);
    assert_eq!(with_value.build(), "#define LIGHTS 4");
    assert_eq!(without_value.build(), "#define USE_FOG");
    assert_eq!(
        build_defines(&vec![without_value.clone()], &vec![with_value.clone()]),
        "#define USE_FOG\n#define LIGHTS 4\n"
    );
}

#[test]
fn test_include_name() {
    assert_eq!(include_name("#include Defines"), Some("Defines".to_string()));
    assert_eq!(include_name("  #include   light_model  "), Some("light_model".to_string()));
    assert_eq!(include_name("void main() {}"), None);
    assert_eq!(include_name("// #include nothing"), None);
}

#[test]
fn test_expand_source() {
    let code = "#version 300 es\n#include Defines\n#include common\nvoid main() {}\n#include common\n#include missing\r\n";
    let table = vec![("common".to_string(), "float f;".to_string())];
    let out = expand_source(code, "#define A\n", &table);
    assert_eq!(out, "#version 300 es\n#define A\nfloat f;\nvoid main() {}\n");
}

#[test]
fn test_expand_includes_keeps_plain_lines() {
    let lines = vec!["a".to_string(), "b".to_string()];
    let out = expand_includes(&lines, &vec![None, None], "", &vec![]);
    assert_eq!(out, "a\nb\n");
}

#[test]
fn test_program_snippets() {
    let mut store = ProgramSnippets::with_snippets(vec![
        ("a".to_string(), "one".to_string()),
        ("a".to_string(), "two".to_string()),
    ]);
    assert_eq!(store.snippet("a"), Some("two"));
    assert_eq!(store.add_snippet("  b ", "three".to_string()), None);
    assert_eq!(store.snippet("b"), Some("three"));
    assert_eq!(store.add_snippet("b", "four".to_string()), Some("three".to_string()));
    assert_eq!(store.remove_snippet(" a"), Some("two".to_string()));
    assert_eq!(store.snippet("a"), None);
    store.clear_snippets();
    assert_eq!(store.snippet("b"), None);
}

struct Source;

impl ProgramSource for Source {
    fn name(&self) -> String {
        "test".to_string()
    }
    fn vertex_source(&self) -> String {
        "#include Defines\n#include shared\n#include own\nvoid main() {}".to_string()
    }
    fn fragment_source(&self) -> String {
        "precision mediump float;\n#include shared".to_string()
    }
    fn universal_defines(&self) -> Vec<Define> {
        vec![Define::WithoutValue("ALL".to_string())]
    }
    fn vertex_defines(&self) -> Vec<Define> {
        vec![Define::WithValue("N".to_string(), "2".to_string())]
    }
    fn fragment_defines(&self) -> Vec<Define> {
        vec![]
    }
    fn snippet(&self, name: &str) -> Option<String> {
        if name == "own" { Some("int own;".to_string()) } else { None }
    }
}

#[test]
fn test_replace_snippets() {
    let mut store = ProgramSnippets::new();
    store.add_snippet("shared", "int shared;".to_string());
    store.add_snippet("own", "int overridden;".to_string());
    assert_eq!(
        store.replace_snippets(&Source, true),
        "#define ALL\n#define N 2\nint shared;\nint own;\nvoid main() {}\n"
    );
    assert_eq!(store.replace_snippets(&Source, false), "precision mediump float;\nint shared;\n");
}

#[test]
fn test_attribute_binding_names() {
    assert_eq!(AttributeBinding::from_name("a_Position"), AttributeBinding::GeometryPosition);
    assert_eq!(AttributeBinding::from_name("a_TexCoord"), AttributeBinding::GeometryTextureCoordinate);
    assert_eq!(AttributeBinding::from_name("a_Bitangent"), AttributeBinding::GeometryBitangent);
    assert_eq!(AttributeBinding::from_name("a_Entity_Color"), AttributeBinding::FromEntity("a_Entity_Color".to_string()));
    assert_eq!(
        AttributeBinding::from_name("a_Geometry_Weight"),
        AttributeBinding::FromGeometry("a_Geometry_Weight".to_string())
    );
    assert_eq!(
        AttributeBinding::from_name("a_Material_Tint"),
        AttributeBinding::FromMaterial("a_Material_Tint".to_string())
    );
    assert_eq!(AttributeBinding::from_name("a_Other_X"), AttributeBinding::Custom("a_Other_X".to_string()));
    assert_eq!(AttributeBinding::from_name("position"), AttributeBinding::Custom("position".to_string()));
    assert_eq!(AttributeBinding::GeometryNormal.variable_name(), "a_Normal");
    assert_eq!(AttributeBinding::Custom("x".to_string()).variable_name(), "x");
    assert_eq!(
        AttributeBinding::from_captured("a_Q", Some("Entity".to_string())),
        AttributeBinding::FromEntity("a_Q".to_string())
    );
}

#[test]
fn test_attribute_pointers() {
    let p = array_buffer_pointer(2, BufferComponentSize::Three, BufferDataType::FLOAT, false, 24, 12);
    assert_eq!((p.location, p.size, p.data_type, p.stride, p.offset, p.divisor), (2, 3, 5126, 24, 12, None));
    let ps = instanced_buffer_pointers(4, BufferComponentSize::Four, BufferDataType::FLOAT, true, 4, 1);
    assert_eq!(ps.len(), 4);
    for (i, p) in ps.iter().enumerate() {
        assert_eq!(p.location, 4 + i as u32);
        assert_eq!(p.size, 4);
        assert_eq!(p.stride, 64);
        assert_eq!(p.offset, 16 * i as i32);
        assert_eq!(p.divisor, Some(1));
        assert!(p.normalized);
    }
}

#[test]
fn test_uniform_internal_binding() {
    assert_eq!(UniformInternalBinding::ViewProjMatrix.variable_name(), "u_ViewProjMatrix");
    assert!(UniformInternalBinding::from_str("u_CanvasSize") == Some(UniformInternalBinding::CanvasSize));
    assert!(UniformInternalBinding::from_str("u_CameraPosition") == Some(UniformInternalBinding::CameraPosition));
    assert!(UniformInternalBinding::from_str("u_Unknown").is_none());
    for b in [
        UniformInternalBinding::RenderTime,
        UniformInternalBinding::CanvasSize,
        UniformInternalBinding::DrawingBufferSize,
        UniformInternalBinding::ModelMatrix,
        UniformInternalBinding::NormalMatrix,
        UniformInternalBinding::ViewMatrix,
        UniformInternalBinding::ProjMatrix,
        UniformInternalBinding::ViewProjMatrix,
        UniformInternalBinding::CameraPosition,
    ] {
        assert!(UniformInternalBinding::from_str(b.variable_name()) == Some(b.clone()));
    }
}

#[test]
fn test_program_cache() {
    let mut cache: ProgramCache<u32> = ProgramCache::new();
    assert_eq!(cache.get("a"), None);
    cache.insert("a".to_string(), 1);
    cache.insert("b".to_string(), 2);
    assert_eq!(cache.get("a"), Some(&1));
    assert_eq!(cache.get("b"), Some(&2));
    assert_eq!(cache.remove("a"), Some(1));
    assert_eq!(cache.get("a"), None);
    assert_eq!(cache.remove("a"), None);
    assert_eq!(cache.get("b"), Some(&2));
}

#[test]
fn test_use_program() {
    assert!(matches!(use_program(None, 4), Ok((Some(4), true))));
    assert!(matches!(use_program(Some(4), 4), Ok((Some(4), false))));
    assert!(matches!(use_program(Some(3), 4), Err(Error::ProgramOccupied)));
}
