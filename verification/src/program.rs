//! The emission program of the cone sampler: the shader text that draws a
//! particle's start and velocity on the graphics card, once for each
//! particle and each on its own.
use vstd::prelude::*;
use vstd::string::StringExecFns;
use crate::cone::{MyPositionCone3dModifier, Value};

verus! {

/// The character of a decimal digit.
pub open spec fn digit_char(d: nat) -> char {
    if d == 0 {
        '0'
    } else if d == 1 {
        '1'
    } else if d == 2 {
        '2'
    } else if d == 3 {
        '3'
    } else if d == 4 {
        '4'
    } else if d == 5 {
        '5'
    } else if d == 6 {
        '6'
    } else if d == 7 {
        '7'
    } else if d == 8 {
        '8'
    } else {
        '9'
    }
}

/// The decimal digits of a number, without leading zeros.
pub open spec fn digits(n: nat) -> Seq<char>
    decreases n,
{
    if n < 10 {
        seq![digit_char(n)]
    } else {
        digits(n / 10).push(digit_char(n % 10))
    }
}

/// The decimal places of `m` thousandths, without trailing zeros.
pub open spec fn places(m: nat) -> Seq<char> {
    if m % 1000 == 0 {
        Seq::empty()
    } else if m % 100 == 0 {
        seq![digit_char(m / 100 % 10)]
    } else if m % 10 == 0 {
        seq![digit_char(m / 100 % 10), digit_char(m / 10 % 10)]
    } else {
        seq![digit_char(m / 100 % 10), digit_char(m / 10 % 10), digit_char(m % 10)]
    }
}

/// A number of thousandths as the shader language writes a real number:
/// the whole part, a point, which the language asks for also where nothing
/// follows it, and the decimal places that are not trailing zeros.
pub open spec fn literal_text(thousandths: nat) -> Seq<char> {
    digits(thousandths / 1000) + seq!['.'] + places(thousandths % 1000)
}

/// A speed as the shader language writes it: a number, or the expression
/// that draws one evenly between two.
pub open spec fn speed_text(speed: Value) -> Seq<char> {
    match speed {
        Value::Single(s) => literal_text(s as nat),
        Value::Uniform(a, b) => "rand() * ("@ + literal_text(b as nat) + " - "@ + literal_text(
            a as nat,
        ) + ") + "@ + literal_text(a as nat),
    }
}

/// The text of a decimal digit.
fn digit_str(d: u32) -> (text: &'static str)
    requires
        d < 10,
    ensures
        text@ == seq![digit_char(d as nat)],
{
    proof {
        reveal_strlit("0");
        reveal_strlit("1");
        reveal_strlit("2");
        reveal_strlit("3");
        reveal_strlit("4");
        reveal_strlit("5");
        reveal_strlit("6");
        reveal_strlit("7");
        reveal_strlit("8");
        reveal_strlit("9");
    }
    let text = if d == 0 {
        "0"
    } else if d == 1 {
        "1"
    } else if d == 2 {
        "2"
    } else if d == 3 {
        "3"
    } else if d == 4 {
        "4"
    } else if d == 5 {
        "5"
    } else if d == 6 {
        "6"
    } else if d == 7 {
        "7"
    } else if d == 8 {
        "8"
    } else {
        "9"
    };
    assert(text@ =~= seq![digit_char(d as nat)]);
    text
}

/// Writes the decimal digits of `n` at the end of `out`.
fn push_digits(out: &mut String, n: u32)
    ensures
        final(out)@ == old(out)@ + digits(n as nat),
    decreases n,
{
    if n >= 10 {
        push_digits(out, n / 10);
    }
    let ghost before = out@;
    out.append(digit_str(n % 10));
    proof {
        if n >= 10 {
            assert(out@ =~= old(out)@ + digits(n as nat / 10).push(digit_char(n as nat % 10)));
        } else {
            assert(out@ =~= old(out)@ + seq![digit_char(n as nat)]);
        }
    }
}

/// Writes `thousandths` at the end of `out`, as the shader language writes
/// a real number.
fn push_literal(out: &mut String, thousandths: u32)
    ensures
        final(out)@ == old(out)@ + literal_text(thousandths as nat),
{
    let whole: u32 = thousandths / 1000;
    let rest: u32 = thousandths % 1000;
    push_digits(out, whole);
    proof {
        reveal_strlit(".");
    }
    out.append(".");
    let ghost pointed = out@;
    assert(pointed =~= old(out)@ + digits(whole as nat) + seq!['.']);
    if rest % 1000 != 0 {
        out.append(digit_str(rest / 100 % 10));
        if rest % 100 != 0 {
            out.append(digit_str(rest / 10 % 10));
            if rest % 10 != 0 {
                out.append(digit_str(rest % 10));
            }
        }
    }
    assert(out@ =~= pointed + places(rest as nat));
    assert(out@ =~= old(out)@ + literal_text(thousandths as nat));
}

/// A number of thousandths as the shader language writes a real number:
/// `100000` is written `100.`, `50500` is written `50.5`, `1` is written
/// `0.001`.
pub fn wgsl_literal(thousandths: u32) -> (text: String)
    ensures
        text@ == literal_text(thousandths as nat),
{
    let mut text = String::new();
    push_literal(&mut text, thousandths);
    assert(text@ =~= literal_text(thousandths as nat));
    text
}

impl Value {
    /// The speed as the shader language writes it.
    pub fn to_wgsl_string(&self) -> (text: String)
        ensures
            text@ == speed_text(*self),
    {
        let mut text = String::new();
        match *self {
            Value::Single(s) => {
                push_literal(&mut text, s);
                assert(text@ =~= speed_text(*self));
            },
            Value::Uniform(a, b) => {
                text.append("rand() * (");
                push_literal(&mut text, b);
                text.append(" - ");
                push_literal(&mut text, a);
                text.append(") + ");
                push_literal(&mut text, a);
                assert(text@ =~= speed_text(*self));
            },
        }
        text
    }
}

/// The program up to the cone's height.
pub const PROGRAM_HEIGHT: &'static str =
    "\n    // Height of the cone section, and how far down it the particle starts.\n    let h0 = ";

/// The program from the cone's height to its top radius.
pub const PROGRAM_TOP: &'static str =
    ";\n    let alpha_h = pow(rand(), 1.0 / 3.0);\n    let h = h0 * alpha_h;\n    // Radius of the cone at its top, at its base and at the particle's height.\n    let rt = ";

/// The program from the cone's top radius to its base radius.
pub const PROGRAM_BASE: &'static str = ";\n    let rb = ";

/// The program from the cone's base radius to the place of the
/// particle's position.
pub const PROGRAM_POSITION: &'static str =
    ";\n    let r0 = rt + (rb - rt) * alpha_h;\n    // Distance of the particle from the axis, and its azimuth.\n    let alpha_r = sqrt(rand());\n    let r = r0 * alpha_r;\n    let theta = rand() * tau;\n    let cost = cos(theta);\n    let sint = sin(theta);\n    let p = vec3<f32>(r * cost, h, r * sint);\n    ";

/// The program from the place of the particle's position to its speed.
pub const PROGRAM_SPEED: &'static str =
    " = (transform * vec4<f32>(p, 1.0)).xyz;\n    // Away from the axis, towards the side of the cone at the same height.\n    let pb = vec3<f32>(r0 * cost, h, r0 * sint);\n    let dir = transform * vec4<f32>(normalize(pb - p), 0.0);\n    let speed = ";

/// The program from the particle's speed to the place of its velocity.
pub const PROGRAM_VELOCITY: &'static str = ";\n    ";

/// The end of the program.
pub const PROGRAM_END: &'static str = " = dir.xyz * speed;\n";

/// The emission program of a cone whose height, radii and speed are
/// written as the given texts, and which writes a particle's start to the
/// place named `position` and its velocity to the place named `velocity`:
/// the fixed text of the sampler with the six texts set into it.
pub open spec fn program_text(
    height: Seq<char>,
    top_radius: Seq<char>,
    base_radius: Seq<char>,
    speed: Seq<char>,
    position: Seq<char>,
    velocity: Seq<char>,
) -> Seq<char> {
    PROGRAM_HEIGHT@ + height + PROGRAM_TOP@ + top_radius + PROGRAM_BASE@ + base_radius
        + PROGRAM_POSITION@ + position + PROGRAM_SPEED@ + speed + PROGRAM_VELOCITY@ + velocity
        + PROGRAM_END@
}

/// Writes the emission program of a cone whose height, radii and speed
/// are given as the shader language writes them. The program draws every
/// random number that it uses itself and shares nothing between one
/// particle and the next.
pub fn emission_program(
    height: &str,
    top_radius: &str,
    base_radius: &str,
    speed: &str,
    position: &str,
    velocity: &str,
) -> (code: String)
    ensures
        code@ == program_text(
            height@,
            top_radius@,
            base_radius@,
            speed@,
            position@,
            velocity@,
        ),
{
    let mut code = String::new();
    code.append(PROGRAM_HEIGHT);
    code.append(height);
    code.append(PROGRAM_TOP);
    code.append(top_radius);
    code.append(PROGRAM_BASE);
    code.append(base_radius);
    code.append(PROGRAM_POSITION);
    code.append(position);
    code.append(PROGRAM_SPEED);
    code.append(speed);
    code.append(PROGRAM_VELOCITY);
    code.append(velocity);
    code.append(PROGRAM_END);
    assert(code@ =~= program_text(
        height@,
        top_radius@,
        base_radius@,
        speed@,
        position@,
        velocity@,
    ));
    code
}

impl MyPositionCone3dModifier {
    /// The emission program of the cone, which writes a particle's start
    /// to the place named `position` and its velocity to the place named
    /// `velocity`.
    pub open spec fn program(self, position: Seq<char>, velocity: Seq<char>) -> Seq<char> {
        program_text(
            literal_text(self.height as nat),
            literal_text(self.top_radius as nat),
            literal_text(self.base_radius as nat),
            speed_text(self.speed),
            position,
            velocity,
        )
    }

    /// Writes the emission program of the cone.
    pub fn apply(&self, position: &str, velocity: &str) -> (code: String)
        ensures
            code@ == self.program(position@, velocity@),
    {
        let height = wgsl_literal(self.height);
        let top_radius = wgsl_literal(self.top_radius);
        let base_radius = wgsl_literal(self.base_radius);
        let speed = self.speed.to_wgsl_string();
        emission_program(
            height.as_str(),
            top_radius.as_str(),
            base_radius.as_str(),
            speed.as_str(),
            position,
            velocity,
        )
    }
}

} // verus!
