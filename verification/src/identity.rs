//! Validated identifier types: the decentralized identifier (DID) and the
//! domain-form handle.
use vstd::prelude::*;

use crate::error::Error;
use crate::strutil::{find_char_from, has_prefix, starts_with};

verus! {

/// Position `j` holds the colon that separates a DID's method from its
/// method-specific identifier: the first colon after the prefix, leaving
/// both surrounding segments non-empty.
pub open spec fn did_method_colon_at(s: Seq<char>, j: int) -> bool {
    4 < j && j + 1 < s.len() && s[j] == ':' && (forall|k: int| 4 <= k < j ==> s[k] != ':')
}

/// A well-formed DID: the `did:` prefix, a non-empty method segment, and a
/// non-empty method-specific identifier after the second colon.
pub open spec fn valid_did(s: Seq<char>) -> bool {
    &&& has_prefix(s, "did:"@)
    &&& exists|j: int| did_method_colon_at(s, j)
}

/// A character allowed inside a handle label.
pub open spec fn handle_label_char(c: char) -> bool {
    ('a' <= c && c <= 'z') || ('A' <= c && c <= 'Z') || ('0' <= c && c <= '9') || c == '-'
}

/// A well-formed handle: at least two dot-separated labels, none empty, all
/// characters alphanumeric or hyphen.
pub open spec fn valid_handle(s: Seq<char>) -> bool {
    &&& s.len() > 0
    &&& s[0] != '.'
    &&& s[s.len() - 1] != '.'
    &&& exists|i: int| 0 <= i < s.len() && s[i] == '.'
    &&& forall|i: int| 0 <= i < s.len() ==> (s[i] == '.' || handle_label_char(s[i]))
    &&& forall|i: int| 0 <= i < s.len() - 1 ==> !(#[trigger] s[i] == '.' && s[i + 1] == '.')
}

/// A Decentralized Identifier (DID), `did:method:identifier`.
pub struct Did {
    text: String,
}

impl Did {
    /// Accepts exactly the well-formed DIDs and keeps the text unchanged.
    pub fn new(did: &str) -> (r: Result<Did, Error>)
        ensures
            r is Ok <==> valid_did(did@),
            r is Ok ==> r->Ok_0@ == did@,
            r matches Result::Err(e) ==> (e matches Error::InvalidDid(t) && t@ == did@),
    {
        if !starts_with(did, "did:") {
            proof {
                reveal_strlit("did:");
            }
            return Err(Error::InvalidDid(did.to_owned()));
        }
        proof {
            reveal_strlit("did:");
        }
        let n = did.unicode_len();
        match find_char_from(did, 4, ':') {
            None => {
                proof {
                    if valid_did(did@) {
                        let j2 = choose|j2: int| did_method_colon_at(did@, j2);
                        assert(did@[j2] != ':');
                    }
                }
                Err(Error::InvalidDid(did.to_owned()))
            },
            Some(j) => {
                if j > 4 && j + 1 < n {
                    proof {
                        assert(did_method_colon_at(did@, j as int));
                    }
                    Ok(Did { text: did.to_owned() })
                } else {
                    proof {
                        if valid_did(did@) {
                            let j2 = choose|j2: int| did_method_colon_at(did@, j2);
                            if j2 < j as int {
                                assert(did@[j2] != ':');
                            } else if j2 > j as int {
                                assert(did@[j as int] != ':');
                            }
                            assert(j2 == j as int);
                        }
                    }
                    Err(Error::InvalidDid(did.to_owned()))
                }
            },
        }
    }

    pub fn as_str(&self) -> (r: &str)
        ensures
            r@ == self@,
    {
        self.text.as_str()
    }
}

impl View for Did {
    type V = Seq<char>;

    closed spec fn view(&self) -> Seq<char> {
        self.text@
    }
}

/// A handle: a domain-form identifier such as `user.example.com`.
pub struct Handle {
    text: String,
}

impl Handle {
    /// Accepts exactly the well-formed handles and keeps the text unchanged.
    pub fn new(handle: &str) -> (r: Result<Handle, Error>)
        ensures
            r is Ok <==> valid_handle(handle@),
            r is Ok ==> r->Ok_0@ == handle@,
            r matches Result::Err(e) ==> (e matches Error::InvalidHandle(t) && t@ == handle@),
    {
        let n = handle.unicode_len();
        if n == 0 {
            return Err(Error::InvalidHandle(handle.to_owned()));
        }
        if handle.get_char(0) == '.' || handle.get_char(n - 1) == '.' {
            return Err(Error::InvalidHandle(handle.to_owned()));
        }
        let mut seen_dot = false;
        let mut i: usize = 0;
        while i < n
            invariant
                i <= n,
            n == handle@.len(),
            seen_dot == exists|k: int| 0 <= k < i && handle@[k] == '.',
            forall|k: int| 0 <= k < i ==> (handle@[k] == '.' || handle_label_char(handle@[k])),
            forall|k: int|
                0 <= k < i ==> !(#[trigger] handle@[k] == '.' && k + 1 < n && handle@[k + 1]
                    == '.'),
            decreases n - i,
        {
            let c = handle.get_char(i);
            if c == '.' {
                if i + 1 < n && handle.get_char(i + 1) == '.' {
                    return Err(Error::InvalidHandle(handle.to_owned()));
                }
                seen_dot = true;
            } else {
                let ok = ('a' <= c && c <= 'z') || ('A' <= c && c <= 'Z') || ('0' <= c && c
                    <= '9') || c == '-';
                if !ok {
                    return Err(Error::InvalidHandle(handle.to_owned()));
                }
            }
            i = i + 1;
        }
        if !seen_dot {
            return Err(Error::InvalidHandle(handle.to_owned()));
        }
        Ok(Handle { text: handle.to_owned() })
    }

    pub fn as_str(&self) -> (r: &str)
        ensures
            r@ == self@,
    {
        self.text.as_str()
    }
}

impl View for Handle {
    type V = Seq<char>;

    closed spec fn view(&self) -> Seq<char> {
        self.text@
    }
}

} // verus!
