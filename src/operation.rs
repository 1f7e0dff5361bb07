//! The closed set of operations, read from an operation name and its
//! optional text parameters. A missing or unreadable parameter takes its
//! default; it is never an error.

use vstd::prelude::*;
use crate::text::{parsed_i32, parsed_u32, read_i32, read_u32, same_text};

verus! {

/// A quarter, half or three-quarter turn clockwise.
#[derive(Clone, Copy, Debug, PartialEq, Eq, Structural)]
pub enum Rotation {
    Quarter,
    Half,
    ThreeQuarters,
}

/// Mirror left to right, or top to bottom.
#[derive(Clone, Copy, Debug, PartialEq, Eq, Structural)]
pub enum FlipDirection {
    Horizontal,
    Vertical,
}

/// One transformation, with its parameters resolved.
#[derive(Clone, Debug, PartialEq, Eq)]
pub enum Operation {
    /// Resample to exactly this size.
    Resize { width: u32, height: u32 },
    /// Keep the luminance only.
    Grayscale,
    /// Gaussian blur; the text of the standard deviation, when one was given.
    Blur { sigma_text: Option<String> },
    /// Add this amount to the brightness of every pixel.
    Brighten { delta: i32 },
    Rotate { rotation: Rotation },
    Flip { direction: FlipDirection },
}

pub const DEFAULT_SIZE: u32 = 100;

pub const DEFAULT_BRIGHTEN: i32 = 10;

pub const DEFAULT_DEGREES: i32 = 90;

/// The texts of the parameter list, if there is one.
pub open spec fn params_view(params: Option<Vec<String>>) -> Option<Seq<Seq<char>>> {
    match params {
        Some(v) => Some(v@.map_values(|s: String| s@)),
        None => None,
    }
}

/// The parameter at position `i`, if the list exists and is long enough.
pub open spec fn param_at(params: Option<Seq<Seq<char>>>, i: int) -> Option<Seq<char>> {
    match params {
        Some(p) => if 0 <= i < p.len() {
            Some(p[i])
        } else {
            None
        },
        None => None,
    }
}

pub open spec fn u32_param_or(params: Option<Seq<Seq<char>>>, i: int, default: u32) -> u32 {
    match param_at(params, i) {
        Some(t) => match parsed_u32(t) {
            Some(v) => v,
            None => default,
        },
        None => default,
    }
}

pub open spec fn i32_param_or(params: Option<Seq<Seq<char>>>, i: int, default: i32) -> i32 {
    match param_at(params, i) {
        Some(t) => match parsed_i32(t) {
            Some(v) => v,
            None => default,
        },
        None => default,
    }
}

/// 180 and 270 turn by that much; every other number of degrees is a quarter turn.
pub open spec fn rotation_for(degrees: i32) -> Rotation {
    if degrees == 180 {
        Rotation::Half
    } else if degrees == 270 {
        Rotation::ThreeQuarters
    } else {
        Rotation::Quarter
    }
}

/// "vertical" flips top to bottom; anything else, or nothing, left to right.
pub open spec fn direction_for(text: Option<Seq<char>>) -> FlipDirection {
    if text == Some("vertical"@) {
        FlipDirection::Vertical
    } else {
        FlipDirection::Horizontal
    }
}

pub open spec fn text_view(t: Option<String>) -> Option<Seq<char>> {
    match t {
        Some(s) => Some(s@),
        None => None,
    }
}

/// The operation names that are understood.
pub open spec fn is_known_operation(name: Seq<char>) -> bool {
    name == "resize"@ || name == "grayscale"@ || name == "blur"@ || name == "brighten"@
        || name == "rotate"@ || name == "flip"@
}

/// `op` is what the name and the parameters ask for.
pub open spec fn describes(op: Operation, name: Seq<char>, params: Option<Seq<Seq<char>>>) -> bool {
    match op {
        Operation::Resize { width, height } => name == "resize"@ && width == u32_param_or(
            params,
            0,
            DEFAULT_SIZE,
        ) && height == u32_param_or(params, 1, DEFAULT_SIZE),
        Operation::Grayscale => name == "grayscale"@,
        Operation::Blur { sigma_text } => name == "blur"@ && text_view(sigma_text) == param_at(
            params,
            0,
        ),
        Operation::Brighten { delta } => name == "brighten"@ && delta == i32_param_or(
            params,
            0,
            DEFAULT_BRIGHTEN,
        ),
        Operation::Rotate { rotation } => name == "rotate"@ && rotation == rotation_for(
            i32_param_or(params, 0, DEFAULT_DEGREES),
        ),
        Operation::Flip { direction } => name == "flip"@ && direction == direction_for(
            param_at(params, 0),
        ),
    }
}

fn param_text(params: &Option<Vec<String>>, i: usize) -> (r: Option<String>)
    ensures
        text_view(r) == param_at(params_view(*params), i as int),
{
    match params {
        Some(v) => if i < v.len() {
            Some(v[i].clone())
        } else {
            None
        },
        None => None,
    }
}

fn u32_param(params: &Option<Vec<String>>, i: usize, default: u32) -> (r: u32)
    ensures
        r == u32_param_or(params_view(*params), i as int, default),
{
    match param_text(params, i) {
        Some(t) => match read_u32(t.as_str()) {
            Some(v) => v,
            None => default,
        },
        None => default,
    }
}

fn i32_param(params: &Option<Vec<String>>, i: usize, default: i32) -> (r: i32)
    ensures
        r == i32_param_or(params_view(*params), i as int, default),
{
    match param_text(params, i) {
        Some(t) => match read_i32(t.as_str()) {
            Some(v) => v,
            None => default,
        },
        None => default,
    }
}

/// The turn for a number of degrees; a value other than 90, 180 or 270 falls
/// back to a quarter turn.
pub fn rotation_from_degrees(degrees: i32) -> (r: Rotation)
    ensures
        r == rotation_for(degrees),
{
    if degrees == 180 {
        Rotation::Half
    } else if degrees == 270 {
        Rotation::ThreeQuarters
    } else {
        Rotation::Quarter
    }
}

/// The direction named by the text; an unknown or missing one falls back to
/// horizontal.
pub fn flip_direction_from(text: Option<&str>) -> (r: FlipDirection)
    ensures
        r == direction_for(
            match text {
                Some(t) => Some(t@),
                None => None,
            },
        ),
{
    match text {
        Some(t) => if same_text(t, "vertical") {
            FlipDirection::Vertical
        } else {
            FlipDirection::Horizontal
        },
        None => FlipDirection::Horizontal,
    }
}

impl Operation {
    /// The operation that `name` selects, with its parameters read from
    /// `params`; `None` when the name is not one of the known operations.
    pub fn from_request(name: &str, params: &Option<Vec<String>>) -> (r: Option<Operation>)
        ensures
            r is None <==> !is_known_operation(name@),
            r matches Some(op) ==> describes(op, name@, params_view(*params)),
    {
        if same_text(name, "resize") {
            let width = u32_param(params, 0, DEFAULT_SIZE);
            let height = u32_param(params, 1, DEFAULT_SIZE);
            Some(Operation::Resize { width, height })
        } else if same_text(name, "grayscale") {
            Some(Operation::Grayscale)
        } else if same_text(name, "blur") {
            Some(Operation::Blur { sigma_text: param_text(params, 0) })
        } else if same_text(name, "brighten") {
            Some(Operation::Brighten { delta: i32_param(params, 0, DEFAULT_BRIGHTEN) })
        } else if same_text(name, "rotate") {
            let degrees = i32_param(params, 0, DEFAULT_DEGREES);
            Some(Operation::Rotate { rotation: rotation_from_degrees(degrees) })
        } else if same_text(name, "flip") {
            let text = param_text(params, 0);
            let direction = match &text {
                Some(t) => flip_direction_from(Some(t.as_str())),
                None => flip_direction_from(None),
            };
            Some(Operation::Flip { direction })
        } else {
            None
        }
    }
}

/// Rotating by a number of degrees other than 90, 180 or 270 is the same
/// operation as rotating by 90 degrees.
pub proof fn rotate_falls_back_to_quarter_turn(
    params: Option<Seq<Seq<char>>>,
    a: Operation,
    b: Operation,
)
    requires
        i32_param_or(params, 0, DEFAULT_DEGREES) != 90,
        i32_param_or(params, 0, DEFAULT_DEGREES) != 180,
        i32_param_or(params, 0, DEFAULT_DEGREES) != 270,
        describes(a, "rotate"@, params),
        describes(b, "rotate"@, Some(seq!["90"@])),
    ensures
        a == b,
        crate::picture::transform_of(a) == crate::picture::Transform::Rotate90,
{
    names_are_distinct();
    let t = "90"@;
    ninety_reads_as_ninety();
    assert(param_at(Some(seq![t]), 0) == Some(t));
}

proof fn ninety_reads_as_ninety()
    ensures
        parsed_i32("90"@) == Some(90i32),
{
    reveal_strlit("90");
    let t = "90"@;
    assert(t =~= seq!['9', '0']);
    assert(t.drop_last() =~= seq!['9']);
    assert(seq!['9'].drop_last() =~= Seq::<char>::empty());
    assert(seq!['9'].len() == 1 && seq!['9'].last() == '9');
    assert(crate::text::digits_value(Seq::<char>::empty()) == 0);
    assert(('9' as int) - ('0' as int) == 9);
    assert(crate::text::digits_value(seq!['9']) == 9);
    assert(crate::text::digits_value(t) == 90);
    assert(crate::text::without_plus(t) == t);
}

pub(crate) proof fn fifty_reads_as_fifty()
    ensures
        parsed_u32("50"@) == Some(50u32),
{
    reveal_strlit("50");
    let t = "50"@;
    assert(t =~= seq!['5', '0']);
    assert(t.drop_last() =~= seq!['5']);
    assert(seq!['5'].drop_last() =~= Seq::<char>::empty());
    assert(seq!['5'].len() == 1 && seq!['5'].last() == '5');
    assert(crate::text::digits_value(Seq::<char>::empty()) == 0);
    assert(('5' as int) - ('0' as int) == 5);
    assert(crate::text::digits_value(seq!['5']) == 5);
    assert(crate::text::digits_value(t) == 50);
    assert(crate::text::without_plus(t) == t);
}

/// The operation names differ from one another.
pub(crate) proof fn names_are_distinct()
    ensures
        "resize"@ != "grayscale"@,
        "resize"@ != "blur"@,
        "resize"@ != "brighten"@,
        "resize"@ != "rotate"@,
        "resize"@ != "flip"@,
        "grayscale"@ != "blur"@,
        "grayscale"@ != "brighten"@,
        "grayscale"@ != "rotate"@,
        "grayscale"@ != "flip"@,
        "blur"@ != "brighten"@,
        "blur"@ != "rotate"@,
        "blur"@ != "flip"@,
        "brighten"@ != "rotate"@,
        "brighten"@ != "flip"@,
        "rotate"@ != "flip"@,
{
    reveal_strlit("resize");
    reveal_strlit("grayscale");
    reveal_strlit("blur");
    reveal_strlit("brighten");
    reveal_strlit("rotate");
    reveal_strlit("flip");
    assert("resize"@[2] != "rotate"@[2]);
    assert("blur"@[0] != "flip"@[0]);
    assert("blur"@.len() != "brighten"@.len());
    assert("grayscale"@.len() != "brighten"@.len());
}

/// Flipping in a direction other than "horizontal" or "vertical" is the same
/// operation as flipping horizontally.
pub proof fn flip_falls_back_to_horizontal(
    direction: Seq<char>,
    params: Option<Seq<Seq<char>>>,
    a: Operation,
    b: Operation,
)
    requires
        param_at(params, 0) == Some(direction),
        direction != "horizontal"@,
        direction != "vertical"@,
        describes(a, "flip"@, params),
        describes(b, "flip"@, Some(seq!["horizontal"@])),
    ensures
        a == b,
        crate::picture::transform_of(a) == crate::picture::Transform::FlipHorizontal,
{
    names_are_distinct();
    reveal_strlit("horizontal");
    reveal_strlit("vertical");
    assert("horizontal"@.len() != "vertical"@.len());
    assert(param_at(Some(seq!["horizontal"@]), 0) == Some("horizontal"@));
}

} // verus!
