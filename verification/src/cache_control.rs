//! Cache directives of query results.

use crate::numeral::{decimal, push_decimal};
use vstd::prelude::*;
use vstd::string::*;

verus! {

/// Whether `c` is one of the characters of a cache directive: a lower-case
/// letter, a digit, or one of `-`, `=`, `,` and the space.
pub open spec fn is_directive_char(c: char) -> bool {
    ||| 'a' <= c <= 'z'
    ||| '0' <= c <= '9'
    ||| c == '-'
    ||| c == '='
    ||| c == ','
    ||| c == ' '
}

/// Whether `text` is made of directive characters only.
pub open spec fn is_directive_text(text: Seq<char>) -> bool {
    forall|i: int| 0 <= i < text.len() ==> is_directive_char(#[trigger] text[i])
}

/// A decimal numeral is never empty and holds digits only.
pub proof fn lemma_decimal_digits(n: nat)
    ensures
        decimal(n).len() >= 1,
        is_directive_text(decimal(n)),
    decreases n,
{
    if n >= 10 {
        lemma_decimal_digits(n / 10);
    }
}

/// How long, and for whom, a result may be cached.
///
/// A `max_age` of zero stands for no directive at all.
#[derive(Clone, Copy, Debug, PartialEq, Eq)]
pub struct CacheControl {
    /// Whether shared caches may hold the result.
    pub public: bool,
    /// For how many seconds the result may be cached.
    pub max_age: usize,
}

impl Default for CacheControl {
    fn default() -> (r: Self)
        ensures
            r == (CacheControl { public: true, max_age: 0 }),
    {
        CacheControl { public: true, max_age: 0 }
    }
}

impl CacheControl {
    /// The text of the directive, if there is one.
    pub open spec fn value_spec(self) -> Option<Seq<char>> {
        if self.max_age > 0 {
            Some(
                "max-age="@ + decimal(self.max_age as nat) + if self.public {
                    Seq::<char>::empty()
                } else {
                    ", private"@
                },
            )
        } else {
            None
        }
    }

    /// The more restrictive of two directives: public only if both are, and
    /// with the shorter of the two ages that are set.
    pub open spec fn merge_spec(self, other: CacheControl) -> CacheControl {
        CacheControl {
            public: self.public && other.public,
            max_age: if self.max_age == 0 {
                other.max_age
            } else if other.max_age == 0 {
                self.max_age
            } else if self.max_age <= other.max_age {
                self.max_age
            } else {
                other.max_age
            },
        }
    }

    /// The text of the directive: `max-age=N`, followed by `, private` unless
    /// the directive is public; nothing where no age is set.
    pub fn value(&self) -> (text: Option<String>)
        ensures
            text matches Some(s) ==> self.value_spec() == Some(s@),
            text is None ==> self.value_spec() is None,
    {
        if self.max_age > 0 {
            let mut s = String::from_str("max-age=");
            push_decimal(&mut s, self.max_age as u64);
            if !self.public {
                s.append(", private");
            }
            assert(s@ =~= self.value_spec().unwrap());
            Some(s)
        } else {
            None
        }
    }

    /// Combines two directives into the more restrictive one.
    pub fn merge(self, other: &CacheControl) -> (merged: CacheControl)
        ensures
            merged == self.merge_spec(*other),
    {
        CacheControl {
            public: self.public && other.public,
            max_age: if self.max_age == 0 {
                other.max_age
            } else if other.max_age == 0 {
                self.max_age
            } else if self.max_age <= other.max_age {
                self.max_age
            } else {
                other.max_age
            },
        }
    }
}

/// The text of a directive is never empty and holds directive characters
/// only.
pub proof fn lemma_value_is_directive_text(directive: CacheControl)
    ensures
        directive.value_spec() matches Some(text) ==> text.len() >= 1 && is_directive_text(text),
{
    if directive.max_age > 0 {
        reveal_strlit("max-age=");
        reveal_strlit(", private");
        lemma_decimal_digits(directive.max_age as nat);
    }
}

/// A merged directive has a text exactly when one of the two has.
pub proof fn lemma_merge_has_value(a: CacheControl, b: CacheControl)
    ensures
        a.merge_spec(b).value_spec() is Some <==> (a.value_spec() is Some || b.value_spec() is Some),
{
}

} // verus!
