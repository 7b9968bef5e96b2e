use vstd::prelude::*;

use super::error::Error;
use super::texture::TextureUnit;
use crate::utils::str_eq;

verus! {

/// Uniform internal bindings.
#[derive(Clone, PartialEq, Eq, Hash, Structural)]
#[non_exhaustive]
pub enum UniformInternalBinding {
    RenderTime,
    CanvasSize,
    DrawingBufferSize,
    ModelMatrix,
    NormalMatrix,
    ViewMatrix,
    ProjMatrix,
    ViewProjMatrix,
    CameraPosition,
}

/// The internal binding whose variable is named `name`, if any.
pub open spec fn uniform_binding_named(name: Seq<char>) -> Option<UniformInternalBinding> {
    if name == "u_RenderTime"@ {
        Some(UniformInternalBinding::RenderTime)
    } else if name == "u_CanvasSize"@ {
        Some(UniformInternalBinding::CanvasSize)
    } else if name == "u_DrawingBufferSize"@ {
        Some(UniformInternalBinding::DrawingBufferSize)
    } else if name == "u_ModelMatrix"@ {
        Some(UniformInternalBinding::ModelMatrix)
    } else if name == "u_NormalMatrix"@ {
        Some(UniformInternalBinding::NormalMatrix)
    } else if name == "u_ViewMatrix"@ {
        Some(UniformInternalBinding::ViewMatrix)
    } else if name == "u_ProjMatrix"@ {
        Some(UniformInternalBinding::ProjMatrix)
    } else if name == "u_ViewProjMatrix"@ {
        Some(UniformInternalBinding::ViewProjMatrix)
    } else if name == "u_CameraPosition"@ {
        Some(UniformInternalBinding::CameraPosition)
    } else {
        None
    }
}

impl UniformInternalBinding {
    /// The variable name of this binding in a shader.
    pub open spec fn spec_variable_name(self) -> Seq<char> {
        match self {
            UniformInternalBinding::RenderTime => "u_RenderTime"@,
            UniformInternalBinding::CanvasSize => "u_CanvasSize"@,
            UniformInternalBinding::DrawingBufferSize => "u_DrawingBufferSize"@,
            UniformInternalBinding::ModelMatrix => "u_ModelMatrix"@,
            UniformInternalBinding::NormalMatrix => "u_NormalMatrix"@,
            UniformInternalBinding::ViewMatrix => "u_ViewMatrix"@,
            UniformInternalBinding::ProjMatrix => "u_ProjMatrix"@,
            UniformInternalBinding::ViewProjMatrix => "u_ViewProjMatrix"@,
            UniformInternalBinding::CameraPosition => "u_CameraPosition"@,
        }
    }

    /// Returns variable name.
    pub fn variable_name(&self) -> (r: &str)
        ensures
            r@ == self.spec_variable_name(),
    {
        match self {
            UniformInternalBinding::RenderTime => "u_RenderTime",
            UniformInternalBinding::CanvasSize => "u_CanvasSize",
            UniformInternalBinding::DrawingBufferSize => "u_DrawingBufferSize",
            UniformInternalBinding::ModelMatrix => "u_ModelMatrix",
            UniformInternalBinding::NormalMatrix => "u_NormalMatrix",
            UniformInternalBinding::ViewMatrix => "u_ViewMatrix",
            UniformInternalBinding::ProjMatrix => "u_ProjMatrix",
            UniformInternalBinding::ViewProjMatrix => "u_ViewProjMatrix",
            UniformInternalBinding::CameraPosition => "u_CameraPosition",
        }
    }

    /// Tries to find uniform internal binding from a variable name.
    pub fn from_str(s: &str) -> (r: Option<Self>)
        ensures
            r == uniform_binding_named(s@),
    {
        if str_eq(s, "u_RenderTime") {
            Some(UniformInternalBinding::RenderTime)
        } else if str_eq(s, "u_CanvasSize") {
            Some(UniformInternalBinding::CanvasSize)
        } else if str_eq(s, "u_DrawingBufferSize") {
            Some(UniformInternalBinding::DrawingBufferSize)
        } else if str_eq(s, "u_ModelMatrix") {
            Some(UniformInternalBinding::ModelMatrix)
        } else if str_eq(s, "u_NormalMatrix") {
            Some(UniformInternalBinding::NormalMatrix)
        } else if str_eq(s, "u_ViewMatrix") {
            Some(UniformInternalBinding::ViewMatrix)
        } else if str_eq(s, "u_ProjMatrix") {
            Some(UniformInternalBinding::ProjMatrix)
        } else if str_eq(s, "u_ViewProjMatrix") {
            Some(UniformInternalBinding::ViewProjMatrix)
        } else if str_eq(s, "u_CameraPosition") {
            Some(UniformInternalBinding::CameraPosition)
        } else {
            None
        }
    }
}

/// Looking up the variable name of a binding finds that binding again.
pub proof fn lemma_uniform_binding_round_trip(binding: UniformInternalBinding)
    ensures
        uniform_binding_named(binding.spec_variable_name()) == Some(binding),
{
    reveal_strlit("u_RenderTime");
    reveal_strlit("u_CanvasSize");
    reveal_strlit("u_DrawingBufferSize");
    reveal_strlit("u_ModelMatrix");
    reveal_strlit("u_NormalMatrix");
    reveal_strlit("u_ViewMatrix");
    reveal_strlit("u_ProjMatrix");
    reveal_strlit("u_ViewProjMatrix");
    reveal_strlit("u_CameraPosition");
    let n = binding.spec_variable_name();
    // the names differ in their length or in their third character
    assert(n == "u_RenderTime"@ ==> n.len() == 12 && n[2] == 'R');
    assert(n == "u_CanvasSize"@ ==> n.len() == 12 && n[2] == 'C');
    assert(n == "u_DrawingBufferSize"@ ==> n.len() == 19);
    assert(n == "u_ModelMatrix"@ ==> n.len() == 13);
    assert(n == "u_NormalMatrix"@ ==> n.len() == 14 && n[2] == 'N');
    assert(n == "u_ViewMatrix"@ ==> n.len() == 12 && n[2] == 'V');
    assert(n == "u_ProjMatrix"@ ==> n.len() == 12 && n[2] == 'P');
    assert(n == "u_ViewProjMatrix"@ ==> n.len() == 16 && n[2] == 'V');
    assert(n == "u_CameraPosition"@ ==> n.len() == 16 && n[2] == 'C');
}

/// The variable name of each internal uniform binding is `u_` followed by the
/// binding's own name (`ModelMatrix` is `u_ModelMatrix`, `ViewMatrix` is
/// `u_ViewMatrix`, ...), looking that name up finds that binding, and no two
/// bindings share a name.
pub proof fn lemma_uniform_variable_names(binding: UniformInternalBinding, other: UniformInternalBinding)
    ensures
        UniformInternalBinding::RenderTime.spec_variable_name() == "u_"@ + "RenderTime"@,
        UniformInternalBinding::CanvasSize.spec_variable_name() == "u_"@ + "CanvasSize"@,
        UniformInternalBinding::DrawingBufferSize.spec_variable_name() == "u_"@ + "DrawingBufferSize"@,
        UniformInternalBinding::ModelMatrix.spec_variable_name() == "u_"@ + "ModelMatrix"@,
        UniformInternalBinding::NormalMatrix.spec_variable_name() == "u_"@ + "NormalMatrix"@,
        UniformInternalBinding::ViewMatrix.spec_variable_name() == "u_"@ + "ViewMatrix"@,
        UniformInternalBinding::ProjMatrix.spec_variable_name() == "u_"@ + "ProjMatrix"@,
        UniformInternalBinding::ViewProjMatrix.spec_variable_name() == "u_"@ + "ViewProjMatrix"@,
        UniformInternalBinding::CameraPosition.spec_variable_name() == "u_"@ + "CameraPosition"@,
        uniform_binding_named("u_"@ + "RenderTime"@) == Some(UniformInternalBinding::RenderTime),
        uniform_binding_named("u_"@ + "CanvasSize"@) == Some(UniformInternalBinding::CanvasSize),
        uniform_binding_named("u_"@ + "DrawingBufferSize"@) == Some(UniformInternalBinding::DrawingBufferSize),
        uniform_binding_named("u_"@ + "ModelMatrix"@) == Some(UniformInternalBinding::ModelMatrix),
        uniform_binding_named("u_"@ + "NormalMatrix"@) == Some(UniformInternalBinding::NormalMatrix),
        uniform_binding_named("u_"@ + "ViewMatrix"@) == Some(UniformInternalBinding::ViewMatrix),
        uniform_binding_named("u_"@ + "ProjMatrix"@) == Some(UniformInternalBinding::ProjMatrix),
        uniform_binding_named("u_"@ + "ViewProjMatrix"@) == Some(UniformInternalBinding::ViewProjMatrix),
        uniform_binding_named("u_"@ + "CameraPosition"@) == Some(UniformInternalBinding::CameraPosition),
        binding != other ==> binding.spec_variable_name() != other.spec_variable_name(),
{
    reveal_strlit("u_");
    reveal_strlit("RenderTime");
    reveal_strlit("CanvasSize");
    reveal_strlit("DrawingBufferSize");
    reveal_strlit("ModelMatrix");
    reveal_strlit("NormalMatrix");
    reveal_strlit("ViewMatrix");
    reveal_strlit("ProjMatrix");
    reveal_strlit("ViewProjMatrix");
    reveal_strlit("CameraPosition");
    reveal_strlit("u_RenderTime");
    reveal_strlit("u_CanvasSize");
    reveal_strlit("u_DrawingBufferSize");
    reveal_strlit("u_ModelMatrix");
    reveal_strlit("u_NormalMatrix");
    reveal_strlit("u_ViewMatrix");
    reveal_strlit("u_ProjMatrix");
    reveal_strlit("u_ViewProjMatrix");
    reveal_strlit("u_CameraPosition");
    assert("u_"@ + "RenderTime"@ =~= "u_RenderTime"@);
    assert("u_"@ + "CanvasSize"@ =~= "u_CanvasSize"@);
    assert("u_"@ + "DrawingBufferSize"@ =~= "u_DrawingBufferSize"@);
    assert("u_"@ + "ModelMatrix"@ =~= "u_ModelMatrix"@);
    assert("u_"@ + "NormalMatrix"@ =~= "u_NormalMatrix"@);
    assert("u_"@ + "ViewMatrix"@ =~= "u_ViewMatrix"@);
    assert("u_"@ + "ProjMatrix"@ =~= "u_ProjMatrix"@);
    assert("u_"@ + "ViewProjMatrix"@ =~= "u_ViewProjMatrix"@);
    assert("u_"@ + "CameraPosition"@ =~= "u_CameraPosition"@);
    lemma_uniform_binding_round_trip(UniformInternalBinding::RenderTime);
    lemma_uniform_binding_round_trip(UniformInternalBinding::CanvasSize);
    lemma_uniform_binding_round_trip(UniformInternalBinding::DrawingBufferSize);
    lemma_uniform_binding_round_trip(UniformInternalBinding::ModelMatrix);
    lemma_uniform_binding_round_trip(UniformInternalBinding::NormalMatrix);
    lemma_uniform_binding_round_trip(UniformInternalBinding::ViewMatrix);
    lemma_uniform_binding_round_trip(UniformInternalBinding::ProjMatrix);
    lemma_uniform_binding_round_trip(UniformInternalBinding::ViewProjMatrix);
    lemma_uniform_binding_round_trip(UniformInternalBinding::CameraPosition);
    lemma_uniform_binding_round_trip(binding);
    lemma_uniform_binding_round_trip(other);
}

/// A uniform value without floating point components: a boolean, signed or
/// unsigned integers (one to four components, or arrays of them), or a
/// texture sampled from a texture unit.
pub enum IntegerUniformValue {
    Bool(bool),
    Integer1(i32),
    Integer2(i32, i32),
    Integer3(i32, i32, i32),
    Integer4(i32, i32, i32, i32),
    UnsignedInteger1(u32),
    UnsignedInteger2(u32, u32),
    UnsignedInteger3(u32, u32, u32),
    UnsignedInteger4(u32, u32, u32, u32),
    /// Arrays of vectors of `components` (one to four) signed integers.
    IntegerVector { components: u32, data: Vec<i32> },
    /// Arrays of vectors of `components` (one to four) unsigned integers.
    UnsignedIntegerVector { components: u32, data: Vec<u32> },
    /// A texture, to be bound to `unit`.
    Texture { unit: TextureUnit },
}

/// The WebGL call that sets a uniform: `uniform{N}i` with the signed
/// values, `uniform{N}ui` with the unsigned ones, `uniform{N}iv` /
/// `uniform{N}uiv` with an array, or, for a texture, binding the texture to
/// `unit` and then `uniform1i` with the unit's index.
pub enum UniformCall {
    Integers(Vec<i32>),
    UnsignedIntegers(Vec<u32>),
    IntegerArray { components: u32, data: Vec<i32> },
    UnsignedIntegerArray { components: u32, data: Vec<u32> },
    Texture { unit: TextureUnit, index: i32 },
}

/// The integer a boolean uniform is set to: `1` for `true`, `0` for `false`.
pub open spec fn bool_value(b: bool) -> i32 {
    if b {
        1
    } else {
        0
    }
}

/// A boolean uniform is set to `1` when true and `0` when false.
pub proof fn lemma_bool_uniform_values()
    ensures
        bool_value(true) == 1,
        bool_value(false) == 0,
{
}

/// `call` sets a uniform to `value`.
pub open spec fn uniform_call(value: IntegerUniformValue, call: UniformCall) -> bool {
    match value {
        IntegerUniformValue::Bool(b) => call matches UniformCall::Integers(v) && v@ == seq![bool_value(b)],
        IntegerUniformValue::Integer1(x) => call matches UniformCall::Integers(v) && v@ == seq![x],
        IntegerUniformValue::Integer2(x, y) => call matches UniformCall::Integers(v) && v@ == seq![x, y],
        IntegerUniformValue::Integer3(x, y, z) => call matches UniformCall::Integers(v) && v@ == seq![x, y, z],
        IntegerUniformValue::Integer4(x, y, z, w) => call matches UniformCall::Integers(v) && v@ == seq![x, y, z, w],
        IntegerUniformValue::UnsignedInteger1(x) => call matches UniformCall::UnsignedIntegers(v) && v@ == seq![x],
        IntegerUniformValue::UnsignedInteger2(x, y) => call matches UniformCall::UnsignedIntegers(v) && v@ == seq![
            x,
            y,
        ],
        IntegerUniformValue::UnsignedInteger3(x, y, z) => call matches UniformCall::UnsignedIntegers(v) && v@
            == seq![x, y, z],
        IntegerUniformValue::UnsignedInteger4(x, y, z, w) => call matches UniformCall::UnsignedIntegers(v) && v@
            == seq![x, y, z, w],
        IntegerUniformValue::IntegerVector { components, data } => call matches UniformCall::IntegerArray {
            components: c,
            data: d,
        } && c == components && d@ == data@,
        IntegerUniformValue::UnsignedIntegerVector { components, data } => call matches UniformCall::UnsignedIntegerArray {
            components: c,
            data: d,
        } && c == components && d@ == data@,
        IntegerUniformValue::Texture { unit } => call matches UniformCall::Texture { unit: u, index }
            && u == unit && index == unit.spec_unit_index(),
    }
}

/// Plans setting a uniform of the program to `value`; `in_use` tells
/// whether the program is the one in use. A program not in use fails with
/// [`Error::ProgramUnused`]; otherwise the call that sets the value is
/// returned.
pub fn plan_uniform_binding(in_use: bool, value: IntegerUniformValue) -> (r: Result<UniformCall, Error>)
    ensures
        !in_use ==> r == Err::<UniformCall, Error>(Error::ProgramUnused),
        in_use ==> (r matches Ok(call) && uniform_call(value, call)),
{
    if !in_use {
        return Err(Error::ProgramUnused);
    }
    let call = match value {
        IntegerUniformValue::Bool(b) => {
            let x: i32 = if b {
                1
            } else {
                0
            };
            let v = vec![x];
            assert(v@ == seq![bool_value(b)]);
            UniformCall::Integers(v)
        },
        IntegerUniformValue::Integer1(x) => {
            let v = vec![x];
            assert(v@ == seq![x]);
            UniformCall::Integers(v)
        },
        IntegerUniformValue::Integer2(x, y) => {
            let v = vec![x, y];
            assert(v@ == seq![x, y]);
            UniformCall::Integers(v)
        },
        IntegerUniformValue::Integer3(x, y, z) => {
            let v = vec![x, y, z];
            assert(v@ == seq![x, y, z]);
            UniformCall::Integers(v)
        },
        IntegerUniformValue::Integer4(x, y, z, w) => {
            let v = vec![x, y, z, w];
            assert(v@ == seq![x, y, z, w]);
            UniformCall::Integers(v)
        },
        IntegerUniformValue::UnsignedInteger1(x) => {
            let v = vec![x];
            assert(v@ == seq![x]);
            UniformCall::UnsignedIntegers(v)
        },
        IntegerUniformValue::UnsignedInteger2(x, y) => {
            let v = vec![x, y];
            assert(v@ == seq![x, y]);
            UniformCall::UnsignedIntegers(v)
        },
        IntegerUniformValue::UnsignedInteger3(x, y, z) => {
            let v = vec![x, y, z];
            assert(v@ == seq![x, y, z]);
            UniformCall::UnsignedIntegers(v)
        },
        IntegerUniformValue::UnsignedInteger4(x, y, z, w) => {
            let v = vec![x, y, z, w];
            assert(v@ == seq![x, y, z, w]);
            UniformCall::UnsignedIntegers(v)
        },
        IntegerUniformValue::IntegerVector { components, data } => UniformCall::IntegerArray { components, data },
        IntegerUniformValue::UnsignedIntegerVector { components, data } => UniformCall::UnsignedIntegerArray {
            components,
            data,
        },
        IntegerUniformValue::Texture { unit } => {
            let index = unit.unit_index();
            UniformCall::Texture { unit, index: index as i32 }
        },
    };
    Ok(call)
}

} // verus!
