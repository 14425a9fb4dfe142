//! The type mapper: source-language primitive tokens to host-language tokens.

use vstd::prelude::*;

verus! {

/// A parameter type token that the lookup table does not hold.
#[derive(Debug, PartialEq, Eq)]
pub struct UnknownPrimitive {
    pub token: String,
}

impl View for UnknownPrimitive {
    type V = Seq<char>;

    /// The offending token.
    open spec fn view(&self) -> Seq<char> {
        self.token@
    }
}

impl Clone for UnknownPrimitive {
    fn clone(&self) -> (copy: Self)
        ensures
            copy@ == self@,
    {
        UnknownPrimitive { token: self.token.clone() }
    }
}

/// The lookup table, from source token to host token.
pub open spec fn type_table() -> Map<Seq<char>, Seq<char>> {
    map!["i32"@ => "Int32"@]
}

/// The host token of a source token, where the table holds one.
pub open spec fn host_type(token: Seq<char>) -> Option<Seq<char>> {
    if type_table().contains_key(token) {
        Some(type_table()[token])
    } else {
        None
    }
}

/// Looks a source token up in the table. A token outside the table is
/// returned in the error, unchanged.
pub fn map_param_type(token: &str) -> (r: Result<String, UnknownPrimitive>)
    ensures
        match r {
            Ok(host) => host_type(token@) == Some(host@),
            Err(e) => host_type(token@) is None && e@ == token@,
        },
{
    let key = String::from_str(token);
    if key == String::from_str("i32") {
        Ok(String::from_str("Int32"))
    } else {
        Err(UnknownPrimitive { token: key })
    }
}

impl UnknownPrimitive {
    /// The text before the token in a diagnostic.
    pub open spec fn message_prefix() -> Seq<char> {
        "unknown primitive type: "@
    }

    /// The diagnostic for this error: it names the token.
    pub fn message(&self) -> (r: String)
        ensures
            r@ == Self::message_prefix() + self@,
    {
        let mut text = String::from_str("unknown primitive type: ");
        text.append(self.token.as_str());
        text
    }
}

} // verus!
