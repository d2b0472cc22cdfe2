use std::collections::HashMap;
use vstd::prelude::*;
use vstd::string::*;

use crate::error::GatewayError;

verus! {

#[verifier::external_type_specification]
#[verifier::external_body]
pub struct ExFmtError(strfmt::FmtError);

/// What strfmt makes of `template` when the one variable `key` is bound to
/// `value`: the text, or `None` where it reports an error.
pub uninterp spec fn strfmt_one(template: Seq<char>, key: Seq<char>, value: Seq<char>) -> Option<
    Seq<char>,
>;

/// The name of the one variable that the style template may use.
pub open spec fn style_key() -> Seq<char> {
    "style"@
}

/// No character of `s` is a brace.
pub open spec fn brace_free(s: Seq<char>) -> bool {
    forall|i: int| 0 <= i < s.len() ==> s[i] != '{' && s[i] != '}'
}

/// The bare placeholder `{style}`.
pub open spec fn style_slot() -> Seq<char> {
    seq!['{', 's', 't', 'y', 'l', 'e', '}']
}

/// `t` holds `{style}` at `i`, and no other brace.
pub open spec fn lone_slot_at(t: Seq<char>, i: int) -> bool {
    &&& 0 <= i && i + 7 <= t.len()
    &&& t.subrange(i, i + 7) == style_slot()
    &&& brace_free(t.take(i))
    &&& brace_free(t.skip(i + 7))
}

/// `key` can name a variable of a format string: not empty, with no brace
/// and no colon.
pub open spec fn plain_key(key: Seq<char>) -> bool {
    &&& key.len() > 0
    &&& brace_free(key)
    &&& forall|i: int| 0 <= i < key.len() ==> key[i] != ':'
}

/// `t` holds `{key}` at `i`, and no other brace.
pub open spec fn lone_key_at(t: Seq<char>, key: Seq<char>, i: int) -> bool {
    &&& 0 <= i && i + key.len() + 2 <= t.len()
    &&& t.subrange(i, i + key.len() + 2) == seq!['{'] + key + seq!['}']
    &&& brace_free(t.take(i))
    &&& brace_free(t.skip(i + key.len() + 2))
}

/// `t` with the seven characters at `i` replaced by `s`.
pub open spec fn fill_at(t: Seq<char>, s: Seq<char>, i: int) -> Seq<char> {
    t.take(i) + s + t.skip(i + 7)
}

/// A placeholder for the style begins at `i`: `{style` closed by `}`, or
/// followed by `:` and a format spec.
pub open spec fn style_slot_at(t: Seq<char>, i: int) -> bool {
    &&& 0 <= i && i + 7 <= t.len()
    &&& t[i] == '{' && t[i + 1] == 's' && t[i + 2] == 't'
    &&& t[i + 3] == 'y' && t[i + 4] == 'l' && t[i + 5] == 'e'
    &&& (t[i + 6] == '}' || t[i + 6] == ':')
}

/// The template names the style somewhere.
pub open spec fn has_style_slot(t: Seq<char>) -> bool {
    exists|i: int| style_slot_at(t, i)
}

/// The system message for a request, or `None` where rendering fails.
pub open spec fn rendered(
    style: Option<Seq<char>>,
    system_template: Seq<char>,
    system_with_style_template: Seq<char>,
) -> Option<Seq<char>> {
    match style {
        None => Some(system_template),
        Some(s) => if has_style_slot(system_with_style_template) {
            strfmt_one(system_with_style_template, style_key(), s)
        } else {
            None
        },
    }
}

/// Relies on strfmt::strfmt with a map that binds `key` alone: it copies
/// every character outside braces and writes the value in place of a bare
/// `{key}`, so a lone `{key}` is replaced by the value.
#[verifier::external_body]
fn format_one(template: &str, key: &str, value: &str) -> (r: Result<String, strfmt::FmtError>)
    ensures
        r is Ok <==> strfmt_one(template@, key@, value@) is Some,
        r is Ok ==> strfmt_one(template@, key@, value@) == Some(r->Ok_0@),
        forall|i: int|
            #![trigger lone_key_at(template@, key@, i)]
            plain_key(key@) && lone_key_at(template@, key@, i) ==> r is Ok && r->Ok_0@ == (
            template@.take(i) + value@ + template@.skip(i + key@.len() + 2)),
{
    let mut vars: HashMap<String, String> = HashMap::new();
    vars.insert(key.to_string(), value.to_string());
    strfmt::strfmt(template, &vars)
}

/// Tells whether the template holds a placeholder for the style.
pub fn mentions_style(t: &str) -> (r: bool)
    ensures
        r == has_style_slot(t@),
{
    let n = t.unicode_len();
    if n < 7 {
        return false;
    }
    let mut i: usize = 0;
    while i <= n - 7
        invariant
            n == t@.len(),
            7 <= n,
            i + 7 <= n + 1,
            forall|j: int| 0 <= j < i ==> !style_slot_at(t@, j),
        decreases n - i,
    {
        if t.get_char(i) == '{' && t.get_char(i + 1) == 's' && t.get_char(i + 2) == 't'
            && t.get_char(i + 3) == 'y' && t.get_char(i + 4) == 'l' && t.get_char(i + 5) == 'e'
            && (t.get_char(i + 6) == '}' || t.get_char(i + 6) == ':') {
            assert(style_slot_at(t@, i as int));
            return true;
        }
        i = i + 1;
    }
    assert forall|j: int| !style_slot_at(t@, j) by {
        if 0 <= j < i {
        }
    }
    false
}

/// The view of an optional string.
pub open spec fn opt_view(o: Option<String>) -> Option<Seq<char>> {
    match o {
        Some(s) => Some(s@),
        None => None,
    }
}

/// The two templates from which system messages are made.
pub struct Templates {
    /// Used as it is when a request names no style.
    pub system_template: String,
    /// Holds one placeholder, `{style}`, for the requested style.
    pub system_with_style_template: String,
}

impl Templates {
    /// Renders the system message for a request with the given style.
    pub fn render(&self, style: &Option<String>) -> (r: Result<String, GatewayError>)
        ensures
            match r {
                Ok(v) => rendered(
                    opt_view(*style),
                    self.system_template@,
                    self.system_with_style_template@,
                ) == Some(v@),
                Err(e) => rendered(
                    opt_view(*style),
                    self.system_template@,
                    self.system_with_style_template@,
                ) is None && e == GatewayError::Template,
            },
            style is None ==> r is Ok && r->Ok_0@ == self.system_template@,
            style is Some && !has_style_slot(self.system_with_style_template@) ==> r
                == Err::<String, GatewayError>(GatewayError::Template),
            forall|i: int|
                #![trigger lone_slot_at(self.system_with_style_template@, i)]
                style is Some && lone_slot_at(self.system_with_style_template@, i) ==> r is Ok
                    && r->Ok_0@ == fill_at(
                    self.system_with_style_template@,
                    style->Some_0@,
                    i,
                ),
    {
        match style {
            None => Ok(self.system_template.clone()),
            Some(s) => {
                let t = self.system_with_style_template.as_str();
                if !mentions_style(t) {
                    proof {
                        assert forall|i: int| !lone_slot_at(t@, i) by {
                            if lone_slot_at(t@, i) {
                                assert(t@.subrange(i, i + 7)[0] == t@[i]);
                                assert(t@.subrange(i, i + 7)[6] == t@[i + 6]);
                                assert(t@.subrange(i, i + 7)[1] == t@[i + 1]);
                                assert(t@.subrange(i, i + 7)[2] == t@[i + 2]);
                                assert(t@.subrange(i, i + 7)[3] == t@[i + 3]);
                                assert(t@.subrange(i, i + 7)[4] == t@[i + 4]);
                                assert(t@.subrange(i, i + 7)[5] == t@[i + 5]);
                                assert(style_slot_at(t@, i));
                            }
                        }
                    }
                    return Err(GatewayError::Template);
                }
                let key = "style";
                proof {
                    reveal_strlit("style");
                    assert(key@ =~= seq!['s', 't', 'y', 'l', 'e']);
                    assert(plain_key(key@));
                    assert forall|i: int| lone_slot_at(t@, i) implies lone_key_at(t@, key@, i) by {
                        assert(seq!['{'] + key@ + seq!['}'] =~= style_slot());
                    }
                }
                match format_one(t, key, s.as_str()) {
                    Ok(v) => Ok(v),
                    Err(_) => Err(GatewayError::Template),
                }
            },
        }
    }
}

} // verus!
