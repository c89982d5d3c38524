use std::cell::Cell;

use gl_framework::error::Error;
use gl_framework::shader::{Shader, Uniform};

#[test]
fn compiled_stage_is_handed_on() {
    let asked = Cell::new(false);
    let r = Shader::compile(7, 1, || {
        asked.set(true);
        String::new()
    });
    assert_eq!(r, Ok(7));
    assert!(!asked.get());
}

#[test]
fn any_status_but_zero_means_success() {
    assert_eq!(Shader::compile(3, -1, || String::new()), Ok(3));
    assert_eq!(Shader::compile(3, i32::MAX, || String::new()), Ok(3));
    assert_eq!(Shader::compile(3, i32::MIN, || String::new()), Ok(3));
}

#[test]
fn failed_stage_carries_the_log() {
    let r = Shader::compile(7, 0, || "0:1: syntax error".to_string());
    assert_eq!(r, Err(Error::ShaderCompileError("0:1: syntax error".to_string())));
}

#[test]
fn linked_program_is_the_shader() {
    let asked = Cell::new(false);
    let shader = Shader::new(12, 1, || {
        asked.set(true);
        String::new()
    })
    .expect("a shader");
    assert_eq!(shader.id(), 12);
    assert!(!asked.get());
}

#[test]
fn failed_link_carries_the_log() {
    let r = Shader::new(12, 0, || "undefined symbol".to_string());
    assert_eq!(r, Err(Error::ShaderLinkError("undefined symbol".to_string())));
}

#[test]
fn uniform_is_missing_at_minus_one() {
    assert_eq!(Uniform::locate(-1), None);
    assert_eq!(Uniform::locate(0), Some(Uniform { id: 0 }));
    assert_eq!(Uniform::locate(5), Some(Uniform { id: 5 }));
    assert_eq!(Uniform::locate(-2), Some(Uniform { id: -2 }));
}
