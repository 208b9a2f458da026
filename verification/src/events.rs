//! What a key press does to a sketch.
//!
//! The sketch's window reports the key; the functions here decide what
//! follows and hand back what is left for the window to do.

use vstd::prelude::*;
use vstd::string::StringExecFns;
use crate::model::{Model, Variant, NEXT_SEED_BOUND};
use crate::stream::ambient_draw;

verus! {

/// The keys a sketch tells apart.
#[derive(Clone, Copy, Debug, PartialEq, Eq)]
pub enum Key {
    /// Draw a new picture.
    R,
    /// Save the current picture.
    S,
    /// Any other key.
    Other,
}

/// What the window has to do after a key press.
#[derive(Clone, Debug, PartialEq, Eq)]
pub enum Action {
    /// Nothing.
    Idle,
    /// Write the current frame to the file of this name.
    Capture { file_name: String },
}

/// The decimal digit `digit`, for `digit` below ten.
pub open spec fn digit_char(digit: int) -> char {
    if digit == 0 {
        '0'
    } else if digit == 1 {
        '1'
    } else if digit == 2 {
        '2'
    } else if digit == 3 {
        '3'
    } else if digit == 4 {
        '4'
    } else if digit == 5 {
        '5'
    } else if digit == 6 {
        '6'
    } else if digit == 7 {
        '7'
    } else if digit == 8 {
        '8'
    } else {
        '9'
    }
}

/// `number` in decimal, without leading zeros.
pub open spec fn decimal(number: nat) -> Seq<char>
    decreases number,
{
    if number < 10 {
        seq![digit_char(number as int)]
    } else {
        decimal(number / 10).push(digit_char(number as int % 10))
    }
}

/// `number` in decimal, filled up with leading zeros to three digits.
pub open spec fn padded_decimal(number: nat) -> Seq<char> {
    if number < 10 {
        seq!['0', '0'] + decimal(number)
    } else if number < 100 {
        seq!['0'] + decimal(number)
    } else {
        decimal(number)
    }
}

/// The name of the file a picture is saved to: the program's name, the seed
/// of the picture where it is part of the name, and `.png`.
pub open spec fn capture_name(exe_name: Seq<char>, seed: Option<u64>) -> Seq<char> {
    exe_name + match seed {
        Some(number) => padded_decimal(number as nat),
        None => Seq::empty(),
    } + seq!['.', 'p', 'n', 'g']
}

/// The seed as it enters the file name of a picture of `model`.
pub open spec fn named_seed(model: Model) -> Option<u64> {
    match model.variant {
        Variant::Plain => None,
        Variant::Colored => Some(model.random_seed),
    }
}

/// Whether `action` is what the window is asked to do after `key`: to save
/// the picture under its name after `S`, and nothing after any other key.
pub open spec fn answers(action: Action, key: Key, exe_name: Seq<char>, seed: Option<u64>) -> bool {
    match action {
        Action::Idle => key != Key::S,
        Action::Capture { file_name } => key == Key::S && file_name@ == capture_name(
            exe_name,
            seed,
        ),
    }
}

fn digit_str(digit: u64) -> (text: &'static str)
    requires
        digit < 10,
    ensures
        text@ == seq![digit_char(digit as int)],
{
    proof {
        reveal_strlit("0");
        reveal_strlit("1");
        reveal_strlit("2");
        reveal_strlit("3");
        reveal_strlit("4");
        reveal_strlit("5");
        reveal_strlit("6");
        reveal_strlit("7");
        reveal_strlit("8");
        reveal_strlit("9");
    }
    let text = if digit == 0 {
        "0"
    } else if digit == 1 {
        "1"
    } else if digit == 2 {
        "2"
    } else if digit == 3 {
        "3"
    } else if digit == 4 {
        "4"
    } else if digit == 5 {
        "5"
    } else if digit == 6 {
        "6"
    } else if digit == 7 {
        "7"
    } else if digit == 8 {
        "8"
    } else {
        "9"
    };
    assert(text@ =~= seq![digit_char(digit as int)]);
    text
}

fn push_decimal(out: &mut String, number: u64)
    ensures
        final(out)@ == old(out)@ + decimal(number as nat),
    decreases number,
{
    if number >= 10 {
        push_decimal(out, number / 10);
    }
    out.append(digit_str(number % 10));
    assert(out@ =~= old(out)@ + decimal(number as nat));
}

/// The name of the file that a picture is saved to. With a seed the name
/// holds it, in at least three digits.
pub fn screenshot_name(exe_name: &str, seed: Option<u64>) -> (name: String)
    ensures
        name@ == capture_name(exe_name@, seed),
{
    let mut name = String::from_str(exe_name);
    if let Some(number) = seed {
        proof {
            reveal_strlit("00");
            reveal_strlit("0");
        }
        if number < 10 {
            name.append("00");
        } else if number < 100 {
            name.append("0");
        }
        push_decimal(&mut name, number);
    }
    proof {
        reveal_strlit(".png");
    }
    name.append(".png");
    assert(name@ =~= capture_name(exe_name@, seed));
    name
}

/// Handles a key press, given the seed `fresh` to use if the key asks for a
/// new picture. `R` reseeds the coloured sketch, `S` asks for the picture to
/// be saved, and nothing else has an effect.
pub fn apply_key(model: &mut Model, key: Key, exe_name: &str, fresh: u64) -> (action: Action)
    ensures
        final(model).variant == old(model).variant,
        final(model).tiles == old(model).tiles,
        final(model).random_seed == if key == Key::R && old(model).variant == Variant::Colored {
            fresh
        } else {
            old(model).random_seed
        },
        answers(action, key, exe_name@, named_seed(*old(model))),
{
    match key {
        Key::R => {
            match model.variant {
                Variant::Colored => {
                    model.reseed(fresh);
                },
                Variant::Plain => {},
            }
            Action::Idle
        },
        Key::S => {
            let seed = match model.variant {
                Variant::Colored => Some(model.random_seed),
                Variant::Plain => None,
            };
            Action::Capture { file_name: screenshot_name(exe_name, seed) }
        },
        Key::Other => Action::Idle,
    }
}

/// Handles a key press. A new seed, where the key asks for one, is drawn from
/// the thread's own generator and lies below `NEXT_SEED_BOUND`.
pub fn key_pressed(model: &mut Model, key: Key, exe_name: &str) -> (action: Action)
    ensures
        final(model).variant == old(model).variant,
        final(model).tiles == old(model).tiles,
        key == Key::R && old(model).variant == Variant::Colored ==> final(model).random_seed
            < NEXT_SEED_BOUND,
        !(key == Key::R && old(model).variant == Variant::Colored) ==> final(model).random_seed
            == old(model).random_seed,
        answers(action, key, exe_name@, named_seed(*old(model))),
{
    match key {
        Key::R => {
            let fresh = ambient_draw(NEXT_SEED_BOUND);
            apply_key(model, key, exe_name, fresh)
        },
        _ => apply_key(model, key, exe_name, 0),
    }
}

} // verus!
