use vstd::prelude::*;

verus! {

/// A question answered on a scale from one to ten.
#[derive(Debug, Clone)]
pub struct OneToTenConfig {
    pub text: String,
    pub label_at_one: String,
    pub label_at_ten: String,
    pub required: bool,
}

/// A question answered in free text.
#[derive(Debug, Clone)]
pub struct EssayConfig {
    pub text: String,
    pub required: bool,
}

/// A question answered by picking one choice.
#[derive(Debug, Clone)]
pub struct RadioChoicesConfig {
    pub text: String,
    pub choices: Vec<String>,
    pub required: bool,
}

/// A block of text shown in the form.
#[derive(Debug, Clone)]
pub struct TextBlockConfig {
    pub text: String,
}

/// A question answered by ticking any number of choices.
#[derive(Debug, Clone)]
pub struct CheckboxesConfig {
    pub text: String,
    pub choices: Vec<String>,
    pub required: bool,
}

/// One element of a survey form.
#[derive(Debug, Clone)]
pub enum WidgetConfig {
    OneToTen(OneToTenConfig),
    Essay(EssayConfig),
    RadioChoices(RadioChoicesConfig),
    Checkboxes(CheckboxesConfig),
    TextBlock(TextBlockConfig),
    Header(TextBlockConfig),
    Separator,
}

/// A survey form: its title and its widgets, in order.
#[derive(Debug, Clone, Default)]
pub struct FormConfig {
    pub title: String,
    pub widgets: Vec<WidgetConfig>,
}

/// The answer held by one widget of a form being filled in.
#[derive(Debug, Clone)]
pub enum WidgetState {
    OneToTen(Option<u8>),
    Essay(String),
    RadioChoices(Option<String>),
    Checkboxes(Vec<String>),
    TextBlock,
    Separator,
}

/// The characters with Unicode's White_Space property.
pub open spec fn is_white_space(c: char) -> bool {
    let u = c as u32;
    ||| 0x09 <= u <= 0x0D
    ||| u == 0x20
    ||| u == 0x85
    ||| u == 0xA0
    ||| u == 0x1680
    ||| 0x2000 <= u <= 0x200A
    ||| u == 0x2028
    ||| u == 0x2029
    ||| u == 0x202F
    ||| u == 0x205F
    ||| u == 0x3000
}

/// The decimal digit for `d`, below ten.
pub open spec fn digit_char(d: nat) -> char {
    ((d + 48) as u8) as char
}

/// The decimal form of `v`, without leading zeros.
pub open spec fn decimal(v: nat) -> Seq<char>
    decreases v,
{
    if v < 10 {
        seq![digit_char(v)]
    } else {
        decimal(v / 10) + seq![digit_char(v % 10)]
    }
}

/// The strings of `v` joined by ", ".
pub open spec fn joined(v: Seq<String>) -> Seq<char>
    decreases v.len(),
{
    if v.len() == 0 {
        Seq::empty()
    } else if v.len() == 1 {
        v[0]@
    } else {
        joined(v.take(v.len() - 1)) + seq![',', ' '] + v.last()@
    }
}

/// Relies on char::is_whitespace: true exactly for the White_Space characters.
#[verifier::external_body]
fn is_whitespace(c: char) -> (r: bool)
    ensures
        r == is_white_space(c),
{
    c.is_whitespace()
}

/// Relies on u8's ToString (its Display): the decimal digits of the value.
#[verifier::external_body]
fn u8_decimal(v: u8) -> (r: String)
    ensures
        r@ == decimal(v as nat),
{
    v.to_string()
}

/// Does `s` hold a character other than white space?
pub fn has_visible_char(s: &str) -> (r: bool)
    ensures
        r == exists|i: int| 0 <= i < s@.len() && !is_white_space(#[trigger] s@[i]),
{
    broadcast use vstd::string::axiom_spec_iter;

    let mut found = false;
    let ghost whole = s@;
    for c in it: s.chars()
        invariant
            it.seq() == whole,
            found == exists|i: int| 0 <= i < it.index() && !is_white_space(#[trigger] whole[i]),
    {
        if !is_whitespace(c) {
            found = true;
        }
    }
    found
}

/// `strs` joined by ", ".
pub fn join_comma(strs: &Vec<String>) -> (r: String)
    ensures
        r@ == joined(strs@),
{
    let mut out = String::new();
    let mut i: usize = 0;
    while i < strs.len()
        invariant
            i <= strs@.len(),
            out@ == joined(strs@.take(i as int)),
        decreases strs@.len() - i,
    {
        proof {
            reveal_strlit(", ");
            assert(strs@.take(i + 1).take(i as int) == strs@.take(i as int));
        }
        if i > 0 {
            out.append(", ");
        }
        out.append(strs[i].as_str());
        i = i + 1;
    }
    proof {
        assert(strs@.take(strs@.len() as int) == strs@);
    }
    out
}

impl WidgetConfig {
    /// Must the widget be answered before the form is submitted?
    pub open spec fn required_view(&self) -> bool {
        match self {
            WidgetConfig::OneToTen(c) => c.required,
            WidgetConfig::Essay(c) => c.required,
            WidgetConfig::RadioChoices(c) => c.required,
            WidgetConfig::Checkboxes(c) => c.required,
            _ => false,
        }
    }

    /// The text shown with the widget.
    pub open spec fn text_view(&self) -> Seq<char> {
        match self {
            WidgetConfig::OneToTen(c) => c.text@,
            WidgetConfig::Essay(c) => c.text@,
            WidgetConfig::RadioChoices(c) => c.text@,
            WidgetConfig::Checkboxes(c) => c.text@,
            WidgetConfig::TextBlock(c) => c.text@,
            WidgetConfig::Header(c) => c.text@,
            WidgetConfig::Separator => Seq::empty(),
        }
    }

    pub fn is_required(&self) -> (r: bool)
        ensures
            r == self.required_view(),
    {
        match self {
            WidgetConfig::OneToTen(c) => c.required,
            WidgetConfig::Essay(c) => c.required,
            WidgetConfig::RadioChoices(c) => c.required,
            WidgetConfig::Checkboxes(c) => c.required,
            _ => false,
        }
    }

    pub fn text(&self) -> (r: &str)
        ensures
            r@ == self.text_view(),
    {
        match self {
            WidgetConfig::OneToTen(c) => c.text.as_str(),
            WidgetConfig::Essay(c) => c.text.as_str(),
            WidgetConfig::RadioChoices(c) => c.text.as_str(),
            WidgetConfig::Checkboxes(c) => c.text.as_str(),
            WidgetConfig::TextBlock(c) => c.text.as_str(),
            WidgetConfig::Header(c) => c.text.as_str(),
            WidgetConfig::Separator => {
                proof {
                    reveal_strlit("");
                }
                ""
            },
        }
    }
}

impl WidgetState {
    /// Has the widget an answer? Free text counts only if it is not all white space.
    pub open spec fn answered(&self) -> bool {
        match self {
            WidgetState::OneToTen(v) => v is Some,
            WidgetState::Essay(s) => exists|i: int| 0 <= i < s@.len() && !is_white_space(#[trigger] s@[i]),
            WidgetState::RadioChoices(v) => v is Some,
            WidgetState::Checkboxes(v) => v@.len() > 0,
            WidgetState::TextBlock => true,
            WidgetState::Separator => true,
        }
    }

    /// The answer as it is written into a submission.
    pub open spec fn answer_view(&self) -> Seq<char> {
        match self {
            WidgetState::OneToTen(Some(v)) => decimal(*v as nat),
            WidgetState::RadioChoices(Some(c)) => c@,
            WidgetState::Essay(t) => t@,
            WidgetState::Checkboxes(v) => joined(v@),
            _ => Seq::empty(),
        }
    }

    pub fn is_answered(&self) -> (r: bool)
        ensures
            r == self.answered(),
    {
        match self {
            WidgetState::OneToTen(v) => v.is_some(),
            WidgetState::Essay(s) => has_visible_char(s.as_str()),
            WidgetState::RadioChoices(v) => v.is_some(),
            WidgetState::Checkboxes(v) => v.len() > 0,
            WidgetState::TextBlock => true,
            WidgetState::Separator => true,
        }
    }

    /// The answer as text: the scale value in decimal, the chosen or written
    /// text, the ticked choices joined by ", ", or nothing.
    pub fn to_string(&self) -> (r: String)
        ensures
            r@ == self.answer_view(),
    {
        match self {
            WidgetState::OneToTen(Some(v)) => u8_decimal(*v),
            WidgetState::RadioChoices(Some(c)) => c.clone(),
            WidgetState::Essay(t) => t.clone(),
            WidgetState::Checkboxes(v) => join_comma(v),
            _ => String::new(),
        }
    }
}

} // verus!
