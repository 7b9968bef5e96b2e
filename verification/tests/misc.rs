use std::cell::RefCell;
use std::rc::Rc;

use webgl_core::renderer::webgl::blit::{blit_arguments, BlitFlilter, BlitMask, BlitRegion};
use webgl_core::renderer::webgl::client_wait::{
    client_wait_flags, client_wait_next, client_wait_status, client_wait_timeout, ClientWaitAction,
    ClientWaitFlags, ClientWaitStatus,
};
use webgl_core::renderer::webgl::draw::DrawMode;
use webgl_core::renderer::webgl::conversion::ToGlEnum;
use webgl_core::renderer::webgl::matrix::{ToI32, ToU32};
use webgl_core::renderer::webgl::error::Error;
use webgl_core::renderer::webgl::texture::immutable::TextureDescriptor;
use webgl_core::renderer::webgl::texture::TextureUnit;
use webgl_core::renderer::webgl::uniform::{plan_uniform_binding, IntegerUniformValue, UniformCall};
use webgl_core::scene::SceneOptions;
use webgl_core::utils::{format_byte_length, split_lines, str_eq, trim};
use webgl_core::value::{Readonly, Value, Writable};

#[test]
fn test_format_byte_length() {
    assert_eq!(format_byte_length(0), "0 Byte");
    assert_eq!(format_byte_length(1), "1 Byte");
    assert_eq!(format_byte_length(2), "2 Bytes");
    assert_eq!(format_byte_length(10240), "10240 Bytes");
    assert_eq!(format_byte_length(10241), "0 MiB");
    assert_eq!(format_byte_length(12034), "0 MiB");
    assert_eq!(format_byte_length(12035), "11 KiB");
    assert_eq!(format_byte_length(10485760), "10240 KiB");
    assert_eq!(format_byte_length(10485761), "10 MiB");
    assert_eq!(format_byte_length(usize::MAX), format!("{} MiB", usize::MAX / 1024 / 1024));
}

#[test]
fn test_string_helpers() {
    assert!(str_eq("abc", "abc"));
    assert!(!str_eq("abc", "abd"));
    assert!(!str_eq("abc", "ab"));
    assert_eq!(trim("  x y \t\n"), "x y");
    assert_eq!(trim(" \u{3000} "), "");
    assert_eq!(trim("\u{a0}a\u{2003}"), "a");
    for s in ["", "a", "a\n", "a\n\nb", "a\r\nb\r", "\n", "x\r\n\r\n"] {
        let expected: Vec<String> = s.lines().map(|l| l.to_string()).collect();
        assert_eq!(split_lines(s), expected);
    }
}

#[test]
fn test_client_wait_decisions() {
    assert_eq!(client_wait_status(37146), Some(ClientWaitStatus::AlreadySignaled));
    assert_eq!(client_wait_status(37147), Some(ClientWaitStatus::TimeoutExpired));
    assert_eq!(client_wait_status(37148), Some(ClientWaitStatus::ConditionSatisfied));
    assert_eq!(client_wait_status(37149), Some(ClientWaitStatus::WaitFailed));
    assert_eq!(client_wait_status(0), None);
    assert_eq!(client_wait_flags(None), 0);
    assert_eq!(client_wait_flags(Some(ClientWaitFlags::SYNC_FLUSH_COMMANDS_BIT)), 1);
    assert_eq!(client_wait_timeout(100), 100);
    assert_eq!(client_wait_timeout(1_000_000), 37447);
    assert_eq!(client_wait_next(ClientWaitStatus::AlreadySignaled, None), ClientWaitAction::Resolve);
    assert_eq!(client_wait_next(ClientWaitStatus::ConditionSatisfied, Some(5)), ClientWaitAction::Resolve);
    assert_eq!(client_wait_next(ClientWaitStatus::WaitFailed, Some(5)), ClientWaitAction::Reject);
    assert_eq!(client_wait_next(ClientWaitStatus::TimeoutExpired, Some(5)), ClientWaitAction::Retry(5));
    assert_eq!(client_wait_next(ClientWaitStatus::TimeoutExpired, None), ClientWaitAction::Reject);
}

#[test]
fn test_blit_arguments() {
    let region = BlitRegion {
        src_x0: None,
        src_y0: Some(2),
        src_x1: None,
        src_y1: Some(10),
        dst_x0: None,
        dst_y0: None,
        dst_x1: None,
        dst_y1: None,
    };
    let a = blit_arguments(region, Some(640), None, None, Some(480), BlitMask::COLOR_BUFFER_BIT, BlitFlilter::LINEAR);
    assert_eq!((a.src_x0, a.src_y0, a.src_x1, a.src_y1), (0, 2, 640, 10));
    assert_eq!((a.dst_x0, a.dst_y0, a.dst_x1, a.dst_y1), (0, 0, 0, 480));
    assert_eq!((a.mask, a.filter), (16384, 9729));
}

#[test]
fn test_integer_conversions() {
    assert_eq!(300u16.to_u32(), 300);
    assert_eq!((-1i8).to_u32(), u32::MAX);
    assert_eq!(u64::MAX.to_i32(), -1);
    assert_eq!(7usize.to_i32(), 7);
    assert_eq!(DrawMode::TRIANGLES.gl_enum(), 4);
}

#[test]
fn test_scene_options_default() {
    assert!(SceneOptions::default().mount.is_none());
}

#[test]
fn test_values() {
    let owned = Readonly::Owned(5);
    assert_eq!(*owned.value(), 5);
    let x = 6;
    let borrowed = Readonly::Borrowed(&x);
    assert_eq!(*borrowed.value(), 6);
    let mut y = 7;
    let mut writable = Writable::Borrowed(&mut y);
    *writable.value_mut() = 8;
    assert_eq!(*writable.value(), 8);
    let cell = Rc::new(RefCell::new(9));
    let mut shared = Value::Rc(cell.clone());
    *shared.value_mut().unwrap().value_mut() = 10;
    assert_eq!(*shared.value().unwrap().value(), 10);
    assert_eq!(*cell.borrow(), 10);
    {
        let guard = cell.borrow_mut();
        assert!(shared.value().is_none());
        drop(guard);
    }
    let mut owned_value = Value::Owned(1);
    *owned_value.value_mut().unwrap().value_mut() = 2;
    assert_eq!(*owned_value.value().unwrap().value(), 2);
    let mut z = 3;
    {
        let mut borrowed_value = Value::Borrowed(&mut z);
        *borrowed_value.value_mut().unwrap().value_mut() = 4;
    }
    assert_eq!(z, 4);
}

#[test]
fn test_texture_descriptor() {
    let d = TextureDescriptor::new(3u32);
    let e = d.clone();
    *d.texture_mut().unwrap() += 1;
    assert_eq!(*e.texture().unwrap(), 4);
    let guard = d.texture_mut().unwrap();
    assert!(e.texture().is_none());
    assert!(e.texture_mut().is_none());
    drop(guard);
    assert!(e.texture().is_some());
}

#[test]
fn test_plan_uniform_binding() {
    assert!(matches!(
        plan_uniform_binding(false, IntegerUniformValue::Integer1(3)),
        Err(Error::ProgramUnused)
    ));
    assert!(matches!(
        plan_uniform_binding(true, IntegerUniformValue::Bool(true)),
        Ok(UniformCall::Integers(v)) if v == vec![1]
    ));
    assert!(matches!(
        plan_uniform_binding(true, IntegerUniformValue::Bool(false)),
        Ok(UniformCall::Integers(v)) if v == vec![0]
    ));
    assert!(matches!(
        plan_uniform_binding(true, IntegerUniformValue::UnsignedInteger3(1, 2, 3)),
        Ok(UniformCall::UnsignedIntegers(v)) if v == vec![1, 2, 3]
    ));
    assert!(matches!(
        plan_uniform_binding(true, IntegerUniformValue::Texture { unit: TextureUnit::TEXTURE7 }),
        Ok(UniformCall::Texture { unit: TextureUnit::TEXTURE7, index: 7 })
    ));
    assert!(matches!(
        plan_uniform_binding(true, IntegerUniformValue::IntegerVector { components: 2, data: vec![1, 2, 3, 4] }),
        Ok(UniformCall::IntegerArray { components: 2, data }) if data == vec![1, 2, 3, 4]
    ));
}
