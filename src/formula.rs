//! The greeting that the formula prints, line by line, with the colour each
//! line is drawn in.

use vstd::prelude::*;

verus! {

/// The colour a line of the greeting is drawn in.
#[derive(Clone, Copy, Debug, PartialEq, Eq, Structural)]
pub enum Tint {
    Plain,
    Green,
    Red,
    Yellow,
    Cyan,
}

/// One line of the greeting.
#[derive(Clone, Debug)]
pub struct Line {
    pub text: String,
    pub tint: Tint,
}

impl View for Line {
    type V = (Seq<char>, Tint);

    open spec fn view(&self) -> (Seq<char>, Tint) {
        (self.text@, self.tint)
    }
}

/// The line that tells whether formulas were already created.
pub open spec fn experience_text(created: bool) -> Seq<char> {
    if created {
        "I've already created formulas using Ritchie."@
    } else {
        "I'm excited in creating new formulas using Ritchie."@
    }
}

/// The greeting for the given inputs: its lines in order, each with its colour.
pub open spec fn greeting(
    text: Seq<char>,
    created: bool,
    list: Seq<char>,
    password: Seq<char>,
) -> Seq<(Seq<char>, Tint)> {
    seq![
        ("Hello World!"@, Tint::Plain),
        ("My name is "@ + text + "."@, Tint::Green),
        (experience_text(created), Tint::Red),
        ("Today, I want to automate "@ + list + "."@, Tint::Yellow),
        ("My secret is "@ + password + "."@, Tint::Cyan),
    ]
}

/// `prefix`, then `middle`, then a full stop.
fn sentence(prefix: &str, middle: &String) -> (r: String)
    ensures
        r@ == prefix@ + middle@ + "."@,
{
    let mut s = String::from_str(prefix);
    s.append(middle.as_str());
    s.append(".");
    s
}

/// The lines the formula prints for its inputs, in order.
pub fn run(input_text: String, input_bool: bool, input_list: String, input_password: String) -> (lines: Vec<Line>)
    ensures
        lines@.len() == 5,
        forall|i: int|
            0 <= i < 5 ==> #[trigger] lines@[i]@ == greeting(
                input_text@,
                input_bool,
                input_list@,
                input_password@,
            )[i],
{
    let mut lines: Vec<Line> = Vec::new();
    lines.push(Line { text: String::from_str("Hello World!"), tint: Tint::Plain });
    lines.push(Line { text: sentence("My name is ", &input_text), tint: Tint::Green });
    let experience = if input_bool {
        String::from_str("I've already created formulas using Ritchie.")
    } else {
        String::from_str("I'm excited in creating new formulas using Ritchie.")
    };
    lines.push(Line { text: experience, tint: Tint::Red });
    lines.push(Line { text: sentence("Today, I want to automate ", &input_list), tint: Tint::Yellow });
    lines.push(Line { text: sentence("My secret is ", &input_password), tint: Tint::Cyan });
    lines
}

} // verus!
