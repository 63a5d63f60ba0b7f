//! Matrix identifiers.

use vstd::prelude::*;
use vstd::string::*;

use crate::text::chars_of;

verus! {

/// What the Matrix library says of a text: whether it is a user id.
pub uninterp spec fn is_user_id(s: Seq<char>) -> bool;

/// Trusted: `matrix_sdk::ruma::UserId::parse`. Whether it accepts a text
/// depends on the text alone and is named [`is_user_id`]. It accepts only texts
/// that start with `@` and hold a `:`.
#[verifier::external_body]
fn parses_as_user_id(s: &str) -> (r: bool)
    ensures
        r == is_user_id(s@),
        r ==> has_user_id_shape(s@),
{
    matrix_sdk::ruma::UserId::parse(s).is_ok()
}

/// Starts with `@` and holds a `:`.
pub open spec fn has_user_id_shape(s: Seq<char>) -> bool {
    s.len() > 0 && s[0] == '@' && s.contains(':')
}

/// The part of a user id between the leading `@` and the first `:`.
pub open spec fn local_part(s: Seq<char>) -> Seq<char> {
    s.subrange(1, s.index_of_first(':')->0)
}

/// A valid Matrix user id, such as `@alice:example.org`.
#[derive(Debug, PartialEq, Eq)]
pub struct UserId {
    id: String,
}

impl View for UserId {
    type V = Seq<char>;

    closed spec fn view(&self) -> Seq<char> {
        self.id@
    }
}

impl Clone for UserId {
    fn clone(&self) -> (r: Self)
        ensures
            r == *self,
    {
        proof {
            use_type_invariant(self);
        }
        UserId { id: self.id.clone() }
    }
}

impl UserId {
    #[verifier::type_invariant]
    spec fn shape(self) -> bool {
        has_user_id_shape(self.id@)
    }

    /// Reads a user id; `None` where the Matrix library does not accept it.
    pub fn parse(s: &str) -> (r: Option<UserId>)
        ensures
            r is Some <==> is_user_id(s@),
            r matches Some(u) ==> u@ == s@,
    {
        if parses_as_user_id(s) {
            Some(UserId { id: s.to_owned() })
        } else {
            None
        }
    }

    /// The id as text.
    pub fn as_str(&self) -> (r: &str)
        ensures
            r@ == self@,
    {
        self.id.as_str()
    }

    /// Whether both are the same id.
    pub fn same(&self, other: &UserId) -> (r: bool)
        ensures
            r == (self@ == other@),
    {
        self.id == other.id
    }

    /// The user's name on its own server: the part between `@` and the first `:`.
    pub fn localpart(&self) -> (r: String)
        ensures
            r@ == local_part(self@),
    {
        proof {
            use_type_invariant(self);
        }
        let chars = chars_of(self.id.as_str());
        let mut i: usize = 0;
        while chars[i] != ':'
            invariant
                i < chars.len(),
                chars@ == self.id@,
                chars@.contains(':'),
                forall|k: int| 0 <= k < i ==> chars@[k] != ':',
            decreases chars.len() - i,
        {
            i += 1;
            proof {
                let c = choose|k: int| 0 <= k < chars@.len() && chars@[k] == ':';
                assert(chars@[c] == ':');
                assert(c >= i);
            }
        }
        proof {
            assert(chars@[0] == '@');
            let f = chars@.index_of_first(':');
            chars@.index_of_first_ensures(':');
            assert(f->0 == i);
        }
        self.id.as_str().substring_char(1, i).to_owned()
    }
}

// ---------------------------------------------------------------------------
// Laws

/// A user id is `@`, the localpart, a colon and the rest; the localpart holds no colon.
pub proof fn the_localpart_ends_at_the_colon(id: Seq<char>)
    requires
        id.len() > 0 && id[0] == '@' && id.contains(':'),
    ensures
        !local_part(id).contains(':'),
        exists|server: Seq<char>| id == #[trigger] (seq!['@'] + local_part(id) + seq![':'] + server),
{
    id.index_of_first_ensures(':');
    let at = id.index_of_first(':')->0;
    let name = local_part(id);
    assert(0 < at < id.len() && id[at] == ':');
    if name.contains(':') {
        let k = choose|k: int| 0 <= k < name.len() && name[k] == ':';
        assert(id[k + 1] == ':');
    }
    let server = id.skip(at + 1);
    assert(id =~= seq!['@'] + name + seq![':'] + server);
}

} // verus!
