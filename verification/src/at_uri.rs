//! Resource URIs: `at://authority/collection/rkey`, with the collection and
//! record-key segments optional, and a record key only ever present under a
//! collection.
use vstd::prelude::*;

use crate::error::Error;
use crate::strutil::{find_char_from, has_prefix, push_char, starts_with};

verus! {

/// Index of the first occurrence of `c` in `s` at or after `from`;
/// `s.len()` if there is none.
pub open spec fn first_at(s: Seq<char>, from: int, c: char) -> int
    decreases s.len() - from,
{
    if from < 0 || from >= s.len() {
        s.len() as int
    } else if s[from] == c {
        from
    } else {
        first_at(s, from + 1, c)
    }
}

pub proof fn lemma_first_at_found(s: Seq<char>, from: int, j: int, c: char)
    requires
        0 <= from <= j < s.len(),
        s[j] == c,
        forall|k: int| from <= k < j ==> s[k] != c,
    ensures
        first_at(s, from, c) == j,
    decreases j - from,
{
    if from < j {
        lemma_first_at_found(s, from + 1, j, c);
    }
}

pub proof fn lemma_first_at_none(s: Seq<char>, from: int, c: char)
    requires
        0 <= from,
        forall|k: int| from <= k < s.len() ==> s[k] != c,
    ensures
        first_at(s, from, c) == s.len(),
    decreases s.len() - from,
{
    if from < s.len() {
        lemma_first_at_none(s, from + 1, c);
    }
}

/// The text form: the scheme prefix, the authority, then each present
/// segment behind a slash; a record key is printed only under a collection.
pub open spec fn at_uri_text(
    auth: Seq<char>,
    coll: Option<Seq<char>>,
    rkey: Option<Seq<char>>,
) -> Seq<char> {
    let base = "at://"@ + auth;
    match coll {
        Option::None => base,
        Option::Some(c) => {
            let with_coll = base + seq!['/'] + c;
            match rkey {
                Option::None => with_coll,
                Option::Some(k) => with_coll + seq!['/'] + k,
            }
        },
    }
}

/// Parsing: strip the scheme prefix, split on the first two slashes, drop
/// empty segments, and reject a record key that appears without a
/// collection. `None` is a parse error.
pub open spec fn spec_parse_at_uri(s: Seq<char>) -> Option<
    (Seq<char>, Option<Seq<char>>, Option<Seq<char>>),
> {
    if !has_prefix(s, "at://"@) {
        Option::None
    } else {
        let rest = s.subrange(5, s.len() as int);
        let a = first_at(rest, 0, '/');
        if a == 0 {
            Option::None
        } else {
            let auth = rest.subrange(0, a);
            if a == rest.len() {
                Option::Some((auth, Option::None, Option::None))
            } else {
                let tail = rest.subrange(a + 1, rest.len() as int);
                let b = first_at(tail, 0, '/');
                let coll = tail.subrange(0, b);
                if b == tail.len() {
                    if coll.len() == 0 {
                        Option::Some((auth, Option::None, Option::None))
                    } else {
                        Option::Some((auth, Option::Some(coll), Option::None))
                    }
                } else {
                    let rk = tail.subrange(b + 1, tail.len() as int);
                    if coll.len() == 0 && rk.len() > 0 {
                        Option::None
                    } else if coll.len() == 0 {
                        Option::Some((auth, Option::None, Option::None))
                    } else if rk.len() == 0 {
                        Option::Some((auth, Option::Some(coll), Option::None))
                    } else {
                        Option::Some((auth, Option::Some(coll), Option::Some(rk)))
                    }
                }
            }
        }
    }
}

/// A pointer to a repository, a collection in it, or a record in that
/// collection.
pub struct AtUri {
    authority: String,
    collection: Option<String>,
    rkey: Option<String>,
}

impl AtUri {
    pub closed spec fn spec_authority(&self) -> Seq<char> {
        self.authority@
    }

    pub closed spec fn spec_collection(&self) -> Option<Seq<char>> {
        match self.collection {
            Option::None => Option::None,
            Option::Some(ref c) => Option::Some(c@),
        }
    }

    pub closed spec fn spec_rkey(&self) -> Option<Seq<char>> {
        match self.rkey {
            Option::None => Option::None,
            Option::Some(ref k) => Option::Some(k@),
        }
    }

    /// Builds a URI from components, kept exactly as given.
    pub fn new(authority: &str, collection: Option<&str>, rkey: Option<&str>) -> (r: AtUri)
        ensures
            r.spec_authority() == authority@,
            r.spec_collection() == match collection {
                Option::None => Option::<Seq<char>>::None,
                Option::Some(c) => Option::Some(c@),
            },
            r.spec_rkey() == match rkey {
                Option::None => Option::<Seq<char>>::None,
                Option::Some(k) => Option::Some(k@),
            },
    {
        AtUri {
            authority: authority.to_owned(),
            collection: match collection {
                Option::None => Option::None,
                Option::Some(c) => Option::Some(c.to_owned()),
            },
            rkey: match rkey {
                Option::None => Option::None,
                Option::Some(k) => Option::Some(k.to_owned()),
            },
        }
    }

    /// A URI naming one record.
    pub fn record(repo: &str, collection: &str, rkey: &str) -> (r: AtUri)
        ensures
            r.spec_authority() == repo@,
            r.spec_collection() == Option::Some(collection@),
            r.spec_rkey() == Option::Some(rkey@),
    {
        AtUri {
            authority: repo.to_owned(),
            collection: Option::Some(collection.to_owned()),
            rkey: Option::Some(rkey.to_owned()),
        }
    }

    /// A URI naming a whole collection.
    pub fn for_collection(repo: &str, collection: &str) -> (r: AtUri)
        ensures
            r.spec_authority() == repo@,
            r.spec_collection() == Option::Some(collection@),
            r.spec_rkey() == Option::<Seq<char>>::None,
    {
        AtUri {
            authority: repo.to_owned(),
            collection: Option::Some(collection.to_owned()),
            rkey: Option::None,
        }
    }

    /// A URI naming a whole repository.
    pub fn repo(authority: &str) -> (r: AtUri)
        ensures
            r.spec_authority() == authority@,
            r.spec_collection() == Option::<Seq<char>>::None,
            r.spec_rkey() == Option::<Seq<char>>::None,
    {
        AtUri { authority: authority.to_owned(), collection: Option::None, rkey: Option::None }
    }

    pub fn authority(&self) -> (r: &str)
        ensures
            r@ == self.spec_authority(),
    {
        self.authority.as_str()
    }

    pub fn collection(&self) -> (r: Option<&str>)
        ensures
            match r {
                Option::None => self.spec_collection() is None,
                Option::Some(c) => self.spec_collection() == Option::Some(c@),
            },
    {
        match &self.collection {
            Option::None => Option::None,
            Option::Some(c) => Option::Some(c.as_str()),
        }
    }

    pub fn rkey(&self) -> (r: Option<&str>)
        ensures
            match r {
                Option::None => self.spec_rkey() is None,
                Option::Some(k) => self.spec_rkey() == Option::Some(k@),
            },
    {
        match &self.rkey {
            Option::None => Option::None,
            Option::Some(k) => Option::Some(k.as_str()),
        }
    }

    /// The text form of the URI.
    pub fn to_text(&self) -> (r: String)
        ensures
            r@ == at_uri_text(self.spec_authority(), self.spec_collection(), self.spec_rkey()),
    {
        let mut out = String::from_str("at://");
        out.append(self.authority.as_str());
        match &self.collection {
            Option::None => {
                proof {
                    assert(out@ =~= "at://"@ + self.spec_authority());
                }
            },
            Option::Some(c) => {
                push_char(&mut out, '/');
                out.append(c.as_str());
                match &self.rkey {
                    Option::None => {
                        proof {
                            assert(out@ =~= "at://"@ + self.spec_authority() + seq!['/'] + c@);
                        }
                    },
                    Option::Some(k) => {
                        push_char(&mut out, '/');
                        out.append(k.as_str());
                        proof {
                            assert(out@ =~= "at://"@ + self.spec_authority() + seq!['/'] + c@
                                + seq!['/'] + k@);
                        }
                    },
                }
            },
        }
        out
    }

    /// Parses the text form; accepts exactly what `spec_parse_at_uri`
    /// accepts and returns its components.
    pub fn parse(s: &str) -> (r: Result<AtUri, Error>)
        ensures
            r is Ok <==> spec_parse_at_uri(s@) is Some,
            r is Ok ==> spec_parse_at_uri(s@) == Option::Some(
                (
                    r->Ok_0.spec_authority(),
                    r->Ok_0.spec_collection(),
                    r->Ok_0.spec_rkey(),
                ),
            ),
            r is Err ==> r->Err_0 is InvalidAtUri,
    {
        if !starts_with(s, "at://") {
            proof {
                reveal_strlit("at://");
            }
            return Err(Error::InvalidAtUri(String::from_str("must start with the scheme prefix")));
        }
        proof {
            reveal_strlit("at://");
        }
        let n = s.unicode_len();
        let rest = s.substring_char(5, n);
        let rlen = rest.unicode_len();
        proof {
            assert(rest@ == s@.subrange(5, s@.len() as int));
        }
        match find_char_from(rest, 0, '/') {
            Option::None => {
                proof {
                    lemma_first_at_none(rest@, 0, '/');
                }
                if rlen == 0 {
                    Err(Error::InvalidAtUri(String::from_str("missing authority")))
                } else {
                    proof {
                        assert(rest@.subrange(0, rest@.len() as int) =~= rest@);
                    }
                    Ok(
                        AtUri {
                            authority: rest.to_owned(),
                            collection: Option::None,
                            rkey: Option::None,
                        },
                    )
                }
            },
            Option::Some(a) => {
                proof {
                    lemma_first_at_found(rest@, 0, a as int, '/');
                }
                if a == 0 {
                    return Err(Error::InvalidAtUri(String::from_str("missing authority")));
                }
                let auth = rest.substring_char(0, a);
                let tail = rest.substring_char(a + 1, rlen);
                let tlen = tail.unicode_len();
                proof {
                    assert(tail@ == rest@.subrange(a + 1, rest@.len() as int));
                }
                match find_char_from(tail, 0, '/') {
                    Option::None => {
                        proof {
                            lemma_first_at_none(tail@, 0, '/');
                            assert(tail@.subrange(0, tail@.len() as int) =~= tail@);
                        }
                        if tlen == 0 {
                            Ok(
                                AtUri {
                                    authority: auth.to_owned(),
                                    collection: Option::None,
                                    rkey: Option::None,
                                },
                            )
                        } else {
                            Ok(
                                AtUri {
                                    authority: auth.to_owned(),
                                    collection: Option::Some(tail.to_owned()),
                                    rkey: Option::None,
                                },
                            )
                        }
                    },
                    Option::Some(b) => {
                        proof {
                            lemma_first_at_found(tail@, 0, b as int, '/');
                        }
                        let coll = tail.substring_char(0, b);
                        let rk = tail.substring_char(b + 1, tlen);
                        let rklen = rk.unicode_len();
                        if b == 0 && rklen > 0 {
                            Err(
                                Error::InvalidAtUri(
                                    String::from_str("record key without a collection"),
                                ),
                            )
                        } else if b == 0 {
                            Ok(
                                AtUri {
                                    authority: auth.to_owned(),
                                    collection: Option::None,
                                    rkey: Option::None,
                                },
                            )
                        } else if rklen == 0 {
                            Ok(
                                AtUri {
                                    authority: auth.to_owned(),
                                    collection: Option::Some(coll.to_owned()),
                                    rkey: Option::None,
                                },
                            )
                        } else {
                            Ok(
                                AtUri {
                                    authority: auth.to_owned(),
                                    collection: Option::Some(coll.to_owned()),
                                    rkey: Option::Some(rk.to_owned()),
                                },
                            )
                        }
                    },
                }
            },
        }
    }
}

/// Components on which the text form is unambiguous: a non-empty authority
/// and collection without slashes, and a record key only under a collection.
pub open spec fn wf_at_uri_parts(
    auth: Seq<char>,
    coll: Option<Seq<char>>,
    rkey: Option<Seq<char>>,
) -> bool {
    &&& auth.len() > 0
    &&& forall|i: int| 0 <= i < auth.len() ==> #[trigger] auth[i] != '/'
    &&& match coll {
        Option::None => rkey is None,
        Option::Some(c) => {
            &&& c.len() > 0
            &&& forall|i: int| 0 <= i < c.len() ==> #[trigger] c[i] != '/'
            &&& match rkey {
                Option::None => true,
                Option::Some(k) => k.len() > 0,
            }
        },
    }
}

/// Formatting then parsing restores the components exactly, for every URI
/// whose components are unambiguous.
pub proof fn lemma_at_uri_round_trip(
    auth: Seq<char>,
    coll: Option<Seq<char>>,
    rkey: Option<Seq<char>>,
)
    requires
        wf_at_uri_parts(auth, coll, rkey),
    ensures
        spec_parse_at_uri(at_uri_text(auth, coll, rkey)) == Option::Some((auth, coll, rkey)),
{
    reveal_strlit("at://");
    let s = at_uri_text(auth, coll, rkey);
    assert(("at://"@).len() == 5);
    assert(s.subrange(0, 5) =~= "at://"@);
    let rest = s.subrange(5, s.len() as int);
    match coll {
        Option::None => {
            assert(rest =~= auth);
            lemma_first_at_none(rest, 0, '/');
            assert(rest.subrange(0, rest.len() as int) =~= auth);
        },
        Option::Some(c) => {
            let al = auth.len() as int;
            match rkey {
                Option::None => {
                    assert(rest =~= auth + seq!['/'] + c);
                    assert(rest[al] == '/');
                    assert(forall|k: int| 0 <= k < al ==> #[trigger] rest[k] == auth[k]);
                    lemma_first_at_found(rest, 0, al, '/');
                    assert(rest.subrange(0, al) =~= auth);
                    let tail = rest.subrange(al + 1, rest.len() as int);
                    assert(tail =~= c);
                    lemma_first_at_none(tail, 0, '/');
                    assert(tail.subrange(0, tail.len() as int) =~= c);
                },
                Option::Some(k) => {
                    assert(rest =~= auth + seq!['/'] + c + seq!['/'] + k);
                    assert(rest[al] == '/');
                    assert(forall|i: int| 0 <= i < al ==> #[trigger] rest[i] == auth[i]);
                    lemma_first_at_found(rest, 0, al, '/');
                    assert(rest.subrange(0, al) =~= auth);
                    let tail = rest.subrange(al + 1, rest.len() as int);
                    assert(tail =~= c + seq!['/'] + k);
                    let cl = c.len() as int;
                    assert(tail[cl] == '/');
                    assert(forall|i: int| 0 <= i < cl ==> #[trigger] tail[i] == c[i]);
                    lemma_first_at_found(tail, 0, cl, '/');
                    assert(tail.subrange(0, cl) =~= c);
                    assert(tail.subrange(cl + 1, tail.len() as int) =~= k);
                },
            }
        },
    }
}

} // verus!
