//! Shader programs: what the driver's answers to compiling and linking mean.

use vstd::prelude::*;

use crate::error::Error;

verus! {

/// A linked shader program, by the name the driver gave it.
#[derive(Debug, PartialEq, Eq)]
pub struct Shader {
    id: u32,
}

impl View for Shader {
    type V = u32;

    closed spec fn view(&self) -> u32 {
        self.id
    }
}

/// The place of a uniform variable in a program.
#[derive(Clone, Copy, Debug, PartialEq, Eq)]
pub struct Uniform {
    pub id: i32,
}

impl Shader {
    /// Judges the compilation of one shader stage. `status` is the driver's
    /// compile status for the shader `id`: anything but zero means that the
    /// stage compiled, and the shader is handed on. On zero the log is fetched
    /// with `log`, which is not called otherwise, and handed back as
    /// `ShaderCompileError`.
    pub fn compile<F: FnOnce() -> String>(id: u32, status: i32, log: F) -> (r: Result<u32, Error>)
        requires
            status == 0 ==> call_requires(log, ()),
        ensures
            status != 0 ==> r == Ok::<u32, Error>(id),
            status == 0 ==> (r matches Err(Error::ShaderCompileError(text)) && call_ensures(
                log,
                (),
                text,
            )),
    {
        if status != 0 {
            Ok(id)
        } else {
            Err(Error::ShaderCompileError(log()))
        }
    }

    /// Judges the linking of a program. `status` is the driver's link status
    /// for the program `id`: anything but zero means that the program linked.
    /// On zero the log is fetched with `log`, which is not called otherwise,
    /// and handed back as `ShaderLinkError`.
    pub fn new<F: FnOnce() -> String>(id: u32, status: i32, log: F) -> (r: Result<Shader, Error>)
        requires
            status == 0 ==> call_requires(log, ()),
        ensures
            status != 0 ==> (r matches Ok(shader) && shader@ == id),
            status == 0 ==> (r matches Err(Error::ShaderLinkError(text)) && call_ensures(
                log,
                (),
                text,
            )),
    {
        if status != 0 {
            Ok(Shader { id })
        } else {
            Err(Error::ShaderLinkError(log()))
        }
    }

    /// The driver's name for the program.
    pub fn id(&self) -> (id: u32)
        ensures
            id == self@,
    {
        self.id
    }
}

impl Uniform {
    /// Reads the driver's answer to a lookup by name: `-1` says that the
    /// program has no such uniform, anything else is its place.
    pub fn locate(location: i32) -> (uniform: Option<Uniform>)
        ensures
            uniform == if location == -1 {
                None
            } else {
                Some(Uniform { id: location })
            },
    {
        if location == -1 {
            None
        } else {
            Some(Uniform { id: location })
        }
    }
}

} // verus!
