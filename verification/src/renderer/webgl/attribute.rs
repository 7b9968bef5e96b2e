use vstd::prelude::*;

use super::buffer::{BufferComponentSize, BufferDataType};
use super::capture::{capture_group, regex_capture};
use super::conversion::ToGlEnum;
use crate::utils::str_eq;

verus! {

/// Regular expression telling where the value of an attribute comes from:
/// `a_<Source>_<Name>`.
pub const GLSL_ATTRIBUTE_REGEX_STRING: &'static str = "a_(.*)_(.*)";

/// Attribute internal bindings.
#[derive(Debug, Clone, PartialEq, Eq, Hash)]
pub enum AttributeBinding {
    GeometryPosition,
    GeometryTextureCoordinate,
    GeometryNormal,
    GeometryTangent,
    GeometryBitangent,
    FromEntity(String),
    FromGeometry(String),
    FromMaterial(String),
    Custom(String),
}

/// The binding a variable `name` of a shader denotes, where `source` is the
/// first group that [`GLSL_ATTRIBUTE_REGEX_STRING`] captures in `name`:
/// the five geometry variables by their fixed names, then the variables
/// `a_Entity_*`, `a_Geometry_*` and `a_Material_*` by their source, and any
/// other name as a custom binding. All but the fixed ones keep `name` whole.
pub open spec fn binding_for(r: AttributeBinding, name: Seq<char>, source: Option<Seq<char>>) -> bool {
    if name == "a_Position"@ {
        r == AttributeBinding::GeometryPosition
    } else if name == "a_TexCoord"@ {
        r == AttributeBinding::GeometryTextureCoordinate
    } else if name == "a_Normal"@ {
        r == AttributeBinding::GeometryNormal
    } else if name == "a_Tangent"@ {
        r == AttributeBinding::GeometryTangent
    } else if name == "a_Bitangent"@ {
        r == AttributeBinding::GeometryBitangent
    } else if source == Some("Entity"@) {
        r matches AttributeBinding::FromEntity(s) && s@ == name
    } else if source == Some("Geometry"@) {
        r matches AttributeBinding::FromGeometry(s) && s@ == name
    } else if source == Some("Material"@) {
        r matches AttributeBinding::FromMaterial(s) && s@ == name
    } else {
        r matches AttributeBinding::Custom(s) && s@ == name
    }
}

impl AttributeBinding {
    /// The variable name of this binding in a shader.
    pub open spec fn spec_variable_name(self) -> Seq<char> {
        match self {
            AttributeBinding::GeometryPosition => "a_Position"@,
            AttributeBinding::GeometryTextureCoordinate => "a_TexCoord"@,
            AttributeBinding::GeometryNormal => "a_Normal"@,
            AttributeBinding::GeometryTangent => "a_Tangent"@,
            AttributeBinding::GeometryBitangent => "a_Bitangent"@,
            AttributeBinding::FromEntity(name) => name@,
            AttributeBinding::FromGeometry(name) => name@,
            AttributeBinding::FromMaterial(name) => name@,
            AttributeBinding::Custom(name) => name@,
        }
    }

    /// Returns variable name.
    pub fn variable_name(&self) -> (r: &str)
        ensures
            r@ == self.spec_variable_name(),
    {
        match self {
            AttributeBinding::GeometryPosition => "a_Position",
            AttributeBinding::GeometryTextureCoordinate => "a_TexCoord",
            AttributeBinding::GeometryNormal => "a_Normal",
            AttributeBinding::GeometryTangent => "a_Tangent",
            AttributeBinding::GeometryBitangent => "a_Bitangent",
            AttributeBinding::FromEntity(name) => name.as_str(),
            AttributeBinding::FromGeometry(name) => name.as_str(),
            AttributeBinding::FromMaterial(name) => name.as_str(),
            AttributeBinding::Custom(name) => name.as_str(),
        }
    }

    /// Decides the binding of the shader variable `name`, given the first
    /// group `source` that [`GLSL_ATTRIBUTE_REGEX_STRING`] captures in it.
    pub fn from_captured(name: &str, source: Option<String>) -> (r: AttributeBinding)
        ensures
            binding_for(r, name@, match source { Some(s) => Some(s@), None => None }),
    {
        if str_eq(name, "a_Position") {
            AttributeBinding::GeometryPosition
        } else if str_eq(name, "a_TexCoord") {
            AttributeBinding::GeometryTextureCoordinate
        } else if str_eq(name, "a_Normal") {
            AttributeBinding::GeometryNormal
        } else if str_eq(name, "a_Tangent") {
            AttributeBinding::GeometryTangent
        } else if str_eq(name, "a_Bitangent") {
            AttributeBinding::GeometryBitangent
        } else {
            let owned = String::from_str(name);
            match source {
                Some(s) => {
                    if str_eq(s.as_str(), "Entity") {
                        AttributeBinding::FromEntity(owned)
                    } else if str_eq(s.as_str(), "Geometry") {
                        AttributeBinding::FromGeometry(owned)
                    } else if str_eq(s.as_str(), "Material") {
                        AttributeBinding::FromMaterial(owned)
                    } else {
                        AttributeBinding::Custom(owned)
                    }
                },
                None => AttributeBinding::Custom(owned),
            }
        }
    }

    /// Finds the attribute binding a shader variable name denotes.
    pub fn from_name(name: &str) -> (r: AttributeBinding)
        ensures
            binding_for(r, name@, regex_capture(GLSL_ATTRIBUTE_REGEX_STRING@, name@, 1)),
    {
        let source = capture_group(GLSL_ATTRIBUTE_REGEX_STRING, name, 1);
        Self::from_captured(name, source)
    }
}

/// The arguments of one `vertexAttribPointer` call, and of the
/// `vertexAttribDivisor` call after it when `divisor` is given.
#[derive(Debug, Clone, Copy, PartialEq, Eq, Structural)]
pub struct VertexAttributePointer {
    pub location: u32,
    pub size: i32,
    pub data_type: u32,
    pub normalized: bool,
    pub stride: i32,
    pub offset: i32,
    pub divisor: Option<u32>,
}

/// The pointer of an attribute read from an array buffer.
pub fn array_buffer_pointer(
    location: u32,
    component_size: BufferComponentSize,
    data_type: BufferDataType,
    normalized: bool,
    bytes_stride: usize,
    byte_offset: usize,
) -> (r: VertexAttributePointer)
    ensures
        r == (VertexAttributePointer {
            location,
            size: component_size.spec_count() as i32,
            data_type: data_type.gl_value(),
            normalized,
            stride: bytes_stride as i32,
            offset: byte_offset as i32,
            divisor: None,
        }),
{
    VertexAttributePointer {
        location,
        size: component_size.count() as i32,
        data_type: data_type.gl_enum(),
        normalized,
        stride: bytes_stride as i32,
        offset: byte_offset as i32,
        divisor: None,
    }
}

/// The pointer of the `i`-th location of an attribute that takes
/// `count` consecutive locations per instance.
pub open spec fn instanced_pointer(
    location: u32,
    component_size: BufferComponentSize,
    data_type: BufferDataType,
    normalized: bool,
    count: nat,
    divisor: usize,
    i: nat,
) -> VertexAttributePointer {
    VertexAttributePointer {
        location: (location + i) as u32,
        size: component_size.spec_count() as i32,
        data_type: data_type.gl_value(),
        normalized,
        stride: (data_type.spec_byte_length() * component_size.spec_count() * count) as i32,
        offset: (i * data_type.spec_byte_length() * component_size.spec_count()) as i32,
        divisor: Some(divisor as u32),
    }
}

/// The pointers of an instanced attribute, which takes
/// `component_count_per_instance` consecutive locations from `location` on;
/// the values of one instance lie side by side in the buffer.
pub fn instanced_buffer_pointers(
    location: u32,
    component_size: BufferComponentSize,
    data_type: BufferDataType,
    normalized: bool,
    component_count_per_instance: usize,
    divisor: usize,
) -> (r: Vec<VertexAttributePointer>)
    requires
        location + component_count_per_instance <= u32::MAX + 1,
        data_type.spec_byte_length() * component_size.spec_count() * component_count_per_instance <= usize::MAX,
    ensures
        r@.len() == component_count_per_instance,
        forall|i: int| 0 <= i < r@.len() ==> #[trigger] r@[i] == instanced_pointer(
            location, component_size, data_type, normalized, component_count_per_instance as nat, divisor, i as nat),
{
    let size = component_size.count();
    let bytes = data_type.byte_length();
    let count = component_count_per_instance;
    assert(bytes * size <= 16) by (nonlinear_arith)
        requires bytes <= 4, size <= 4;
    assert(bytes * size * count <= usize::MAX);
    let stride = bytes * size * count;
    let mut pointers: Vec<VertexAttributePointer> = Vec::new();
    let mut i: usize = 0;
    while i < count
        invariant
            i <= count,
            count == component_count_per_instance,
            size == component_size.spec_count(),
            bytes == data_type.spec_byte_length(),
            stride == bytes * size * count,
            location + count <= u32::MAX + 1,
            bytes * size * count <= usize::MAX,
            pointers@.len() == i,
            forall|j: int| 0 <= j < i ==> #[trigger] pointers@[j] == instanced_pointer(
                location, component_size, data_type, normalized, count as nat, divisor, j as nat),
        decreases count - i,
    {
        assert(i * bytes * size <= bytes * size * count) by (nonlinear_arith)
            requires i < count;
        let offset = i * bytes * size;
        pointers.push(VertexAttributePointer {
            location: location + i as u32,
            size: size as i32,
            data_type: data_type.gl_enum(),
            normalized,
            stride: stride as i32,
            offset: offset as i32,
            divisor: Some(divisor as u32),
        });
        i = i + 1;
    }
    pointers
}

/// The binding decided for a shader variable bears the variable's name.
pub proof fn lemma_binding_keeps_name(r: AttributeBinding, name: Seq<char>, source: Option<Seq<char>>)
    requires
        binding_for(r, name, source),
    ensures
        r.spec_variable_name() == name,
{
}

/// The five geometry attributes are named `a_` followed by what they hold
/// (`a_Position`, `a_TexCoord`, `a_Normal`, `a_Tangent`, `a_Bitangent`), and
/// a shader variable of such a name denotes that attribute and no other.
pub proof fn lemma_geometry_attribute_names(r: AttributeBinding, source: Option<Seq<char>>)
    ensures
        AttributeBinding::GeometryPosition.spec_variable_name() == "a_"@ + "Position"@,
        AttributeBinding::GeometryTextureCoordinate.spec_variable_name() == "a_"@ + "TexCoord"@,
        AttributeBinding::GeometryNormal.spec_variable_name() == "a_"@ + "Normal"@,
        AttributeBinding::GeometryTangent.spec_variable_name() == "a_"@ + "Tangent"@,
        AttributeBinding::GeometryBitangent.spec_variable_name() == "a_"@ + "Bitangent"@,
        binding_for(r, "a_"@ + "Position"@, source) <==> r == AttributeBinding::GeometryPosition,
        binding_for(r, "a_"@ + "TexCoord"@, source) <==> r == AttributeBinding::GeometryTextureCoordinate,
        binding_for(r, "a_"@ + "Normal"@, source) <==> r == AttributeBinding::GeometryNormal,
        binding_for(r, "a_"@ + "Tangent"@, source) <==> r == AttributeBinding::GeometryTangent,
        binding_for(r, "a_"@ + "Bitangent"@, source) <==> r == AttributeBinding::GeometryBitangent,
{
    reveal_strlit("a_");
    reveal_strlit("Position");
    reveal_strlit("a_Position");
    assert("a_"@ + "Position"@ =~= "a_Position"@);
    reveal_strlit("TexCoord");
    reveal_strlit("a_TexCoord");
    assert("a_"@ + "TexCoord"@ =~= "a_TexCoord"@);
    reveal_strlit("Normal");
    reveal_strlit("a_Normal");
    assert("a_"@ + "Normal"@ =~= "a_Normal"@);
    reveal_strlit("Tangent");
    reveal_strlit("a_Tangent");
    assert("a_"@ + "Tangent"@ =~= "a_Tangent"@);
    reveal_strlit("Bitangent");
    reveal_strlit("a_Bitangent");
    assert("a_"@ + "Bitangent"@ =~= "a_Bitangent"@);
    // the fixed names differ in their length or in their third character
    assert("a_Position"@[2] == 'P' && "a_TexCoord"@[2] == 'T');
    assert("a_Position"@.len() == 10 && "a_TexCoord"@.len() == 10 && "a_Normal"@.len() == 8
        && "a_Tangent"@.len() == 9 && "a_Bitangent"@.len() == 11);
}

} // verus!
