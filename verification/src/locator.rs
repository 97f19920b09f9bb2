//! Human-readable locators. A sequence is addressed by a bare name; a topic
//! by `"<sequence-name>/<topic-name>"`. Parsing failure is a `Validation`
//! error, distinct from `NotFound`.

use vstd::prelude::*;
use vstd::string::StrSliceExecFns;
use crate::errors::FacadeError;

verus! {

/// A name usable as one level of the locator hierarchy: non-empty text
/// without a separator.
pub open spec fn valid_resource_name(s: Seq<char>) -> bool {
    s.len() > 0 && forall|i: int| 0 <= i < s.len() ==> s[i] != '/'
}

/// Whether `s` splits as `"<sequence-name>/<topic-name>"` with both levels
/// valid. Such a split, when it exists, is unique: neither side holds a
/// separator, so the split stands at the only `'/'` of the text.
pub open spec fn valid_topic_locator(s: Seq<char>) -> bool {
    exists|i: int|
        0 <= i < s.len() && s[i] == '/' && valid_resource_name(s.take(i))
            && valid_resource_name(s.skip(i + 1))
}

/// The position of the first `'/'` of `s`, if any.
fn find_first_slash(s: &str) -> (r: Option<usize>)
    ensures
        match r {
            Some(i) => i < s@.len() && s@[i as int] == '/' && forall|j: int|
                0 <= j < i ==> s@[j] != '/',
            None => forall|j: int| 0 <= j < s@.len() ==> s@[j] != '/',
        },
{
    let n = s.unicode_len();
    let mut i: usize = 0;
    while i < n
        invariant
            n == s@.len(),
            0 <= i <= n,
            forall|j: int| 0 <= j < i ==> s@[j] != '/',
        decreases n - i,
    {
        if s.get_char(i) == '/' {
            return Some(i);
        }
        i += 1;
    }
    None
}

/// The unique name of a sequence. The repository accepts any text as a
/// stored name; the rules of [`valid_resource_name`] are enforced on the
/// paths that parse user input.
pub struct SequenceResourceLocator {
    pub name: String,
}

impl SequenceResourceLocator {
    /// Wraps stored text without validation, as the repository reads it
    /// back from its own rows.
    pub fn from_name(name: String) -> (r: SequenceResourceLocator)
        ensures
            r.name == name,
    {
        SequenceResourceLocator { name }
    }

    /// Reads a sequence locator from user input.
    pub fn parse_str(s: &str) -> (r: Result<SequenceResourceLocator, FacadeError>)
        ensures
            match r {
                Ok(l) => l.name@ == s@ && valid_resource_name(s@),
                Err(e) => e == FacadeError::Validation && !valid_resource_name(s@),
            },
    {
        if s.unicode_len() == 0 {
            return Err(FacadeError::Validation);
        }
        match find_first_slash(s) {
            Some(_) => Err(FacadeError::Validation),
            None => Ok(SequenceResourceLocator { name: s.to_owned() }),
        }
    }

    pub fn name(&self) -> (r: &str)
        ensures
            r@ == self.name@,
    {
        self.name.as_str()
    }
}

/// The two-level name of a topic, unique within its owning sequence.
pub struct TopicResourceLocator {
    /// The owning sequence's name.
    pub sequence: String,
    /// The topic's own name.
    pub name: String,
}

impl TopicResourceLocator {
    /// Reads a topic locator of the shape `"<sequence-name>/<topic-name>"`
    /// from user input, splitting at its only separator.
    pub fn parse_str(s: &str) -> (r: Result<TopicResourceLocator, FacadeError>)
        ensures
            match r {
                Ok(t) => valid_resource_name(t.sequence@) && valid_resource_name(t.name@)
                    && s@ == t.sequence@ + seq!['/'] + t.name@,
                Err(e) => e == FacadeError::Validation && !valid_topic_locator(s@),
            },
    {
        let n = s.unicode_len();
        let i = match find_first_slash(s) {
            Some(i) => i,
            None => {
                return Err(FacadeError::Validation);
            },
        };
        if i == 0 || i + 1 == n {
            // A leading or trailing separator: one side of any split would
            // be empty or hold a separator.
            assert(!valid_topic_locator(s@)) by {
                assert forall|k: int|
                    0 <= k < s@.len() && s@[k] == '/' implies !(valid_resource_name(s@.take(k))
                    && valid_resource_name(s@.skip(k + 1))) by {
                    if k > i {
                        assert(s@.take(k)[i as int] == '/');
                    }
                }
            }
            return Err(FacadeError::Validation);
        }
        let mut j: usize = i + 1;
        while j < n
            invariant
                n == s@.len(),
                0 < i < n,
                s@[i as int] == '/',
                forall|k: int| 0 <= k < i ==> s@[k] != '/',
                i < j <= n,
                forall|k: int| i < k < j ==> s@[k] != '/',
            decreases n - j,
        {
            if s.get_char(j) == '/' {
                // A second separator: any split leaves a separator inside
                // one of the two sides.
                let ghost jj = j as int;
                assert(!valid_topic_locator(s@)) by {
                    assert forall|k: int|
                        0 <= k < s@.len() && s@[k] == '/' implies !(valid_resource_name(
                        s@.take(k),
                    ) && valid_resource_name(s@.skip(k + 1))) by {
                        if k > i {
                            assert(s@.take(k)[i as int] == '/');
                        } else {
                            assert(s@.skip(k + 1)[jj - k - 1] == '/');
                        }
                    }
                }
                return Err(FacadeError::Validation);
            }
            j += 1;
        }
        let seq_part = s.substring_char(0, i);
        let name_part = s.substring_char(i + 1, n);
        let t = TopicResourceLocator { sequence: seq_part.to_owned(), name: name_part.to_owned() };
        proof {
            assert(t.sequence@ == s@.take(i as int));
            assert(t.name@ == s@.skip(i as int + 1));
            assert(s@ =~= s@.take(i as int) + seq!['/'] + s@.skip(i as int + 1));
        }
        Ok(t)
    }
}

} // verus!
