//! Error types shared by the whole library.
//!
//! Every fallible operation returns one of the variants below; nothing is
//! swallowed.  The audio subsystem uses the `Audio*`, `Sound*` variants; the
//! OpenGL-side variants exist so that the host application can report its
//! failures through the same type.

use vstd::prelude::*;
use vstd::string::StringExecFns;

verus! {

/// A custom error type for handling various failures in the library.
#[derive(Debug, Clone, PartialEq, Eq)]
pub enum Errors {
    GlfwInitializationError(String),
    WindowCreationError(String),
    TextureLoadError(String),
    ShaderCompilationError(String, String),
    ShaderLinkError(String),
    FileLoadError(String),
    OpenGlError(String, u32),
    AudioInitializationError(String),
    SoundLoadError(String),
    SoundPlayError(String),
    SoundNotFoundError(String),
    AudioDecodeError(String),
    AudioVolumeError(String),
}

/// The OpenGL "no error" flag value.
pub const GL_NO_ERROR: u32 = 0;
/// The OpenGL "invalid enum" flag value.
pub const GL_INVALID_ENUM: u32 = 0x0500;
/// The OpenGL "invalid value" flag value.
pub const GL_INVALID_VALUE: u32 = 0x0501;
/// The OpenGL "invalid operation" flag value.
pub const GL_INVALID_OPERATION: u32 = 0x0502;
/// The OpenGL "out of memory" flag value.
pub const GL_OUT_OF_MEMORY: u32 = 0x0505;

/// The character for one decimal digit value.
pub open spec fn decimal_digit_char(d: int) -> char {
    if d == 0 {
        '0'
    } else if d == 1 {
        '1'
    } else if d == 2 {
        '2'
    } else if d == 3 {
        '3'
    } else if d == 4 {
        '4'
    } else if d == 5 {
        '5'
    } else if d == 6 {
        '6'
    } else if d == 7 {
        '7'
    } else if d == 8 {
        '8'
    } else {
        '9'
    }
}

/// The usual decimal rendering of a number: most significant digit first,
/// no leading zeroes (zero itself is the single digit `0`).
pub open spec fn decimal_of(n: nat) -> Seq<char>
    decreases n,
{
    if n < 10 {
        seq![decimal_digit_char(n as int)]
    } else {
        decimal_of(n / 10).push(decimal_digit_char((n % 10) as int))
    }
}

/// The one-character string for a decimal digit.
fn digit_str(d: u32) -> (s: &'static str)
    requires
        d < 10,
    ensures
        s@ == seq![decimal_digit_char(d as int)],
{
    proof {
        reveal_strlit("0");
        reveal_strlit("1");
        reveal_strlit("2");
        reveal_strlit("3");
        reveal_strlit("4");
        reveal_strlit("5");
        reveal_strlit("6");
        reveal_strlit("7");
        reveal_strlit("8");
        reveal_strlit("9");
    }
    match d {
        0 => "0",
        1 => "1",
        2 => "2",
        3 => "3",
        4 => "4",
        5 => "5",
        6 => "6",
        7 => "7",
        8 => "8",
        _ => "9",
    }
}

/// Appends the decimal rendering of `n` to `out`.
fn push_decimal(out: &mut String, n: u32)
    ensures
        final(out)@ == old(out)@ + decimal_of(n as nat),
    decreases n,
{
    if n >= 10 {
        push_decimal(out, n / 10);
    }
    let d: u32 = n % 10;
    let digit: &str = digit_str(d);
    out.append(digit);
    proof {
        assert(out@ =~= old(out)@ + decimal_of(n as nat));
    }
}

/// The diagnostic text reported for a given OpenGL error flag; a flag
/// without a name of its own carries its decimal value in the text.
pub open spec fn opengl_error_text(error_code: u32) -> Seq<char> {
    if error_code == GL_INVALID_ENUM {
        "Invalid enum"@
    } else if error_code == GL_INVALID_VALUE {
        "Invalid value"@
    } else if error_code == GL_INVALID_OPERATION {
        "Invalid operation"@
    } else if error_code == GL_OUT_OF_MEMORY {
        "Out of memory"@
    } else {
        "Unknown OpenGL error (code: "@ + decimal_of(error_code as nat) + ")"@
    }
}

/// Classifies an OpenGL error flag, as returned by the driver's error query:
/// the zero flag means no error, anything else is reported as an
/// `OpenGlError` carrying the diagnostic text and the raw flag value.
pub fn check_opengl_error(error_code: u32) -> (r: Result<(), Errors>)
    ensures
        r is Ok <==> error_code == GL_NO_ERROR,
        error_code != GL_NO_ERROR ==> (r matches Err(e) && e matches Errors::OpenGlError(
            msg,
            code,
        ) && code == error_code && msg@ == opengl_error_text(error_code)),
{
    if error_code == GL_NO_ERROR {
        return Ok(());
    }
    let error_message: String = if error_code == GL_INVALID_ENUM {
        "Invalid enum".to_owned()
    } else if error_code == GL_INVALID_VALUE {
        "Invalid value".to_owned()
    } else if error_code == GL_INVALID_OPERATION {
        "Invalid operation".to_owned()
    } else if error_code == GL_OUT_OF_MEMORY {
        "Out of memory".to_owned()
    } else {
        let mut msg: String = "Unknown OpenGL error (code: ".to_owned();
        push_decimal(&mut msg, error_code);
        msg.append(")");
        proof {
            assert(msg@ =~= opengl_error_text(error_code));
        }
        msg
    };
    Err(Errors::OpenGlError(error_message, error_code))
}

} // verus!
