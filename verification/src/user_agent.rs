//! User agents, which tell a peer what software it is talking to.
//!
//! Bitcoin software writes them as `/name:version/`.

use crate::text::characters;
use vstd::prelude::*;

verus! {

/// What is wrong with a user agent.
#[derive(Debug, Clone, Copy, PartialEq, Eq, Structural)]
pub enum UserAgentError {
    /// The text does not have the form `/name:version/`.
    InvalidFormat,
    /// The name component is empty.
    MissingName,
    /// The version component is empty.
    MissingVersion,
}

impl UserAgentError {
    /// The message that tells a person what is wrong.
    pub open spec fn message(self) -> Seq<char> {
        match self {
            UserAgentError::InvalidFormat => "User agent must follow format '/name:version/'"@,
            UserAgentError::MissingName => "User agent name component cannot be empty"@,
            UserAgentError::MissingVersion => "User agent version component cannot be empty"@,
        }
    }

    /// Says what is wrong.
    pub fn to_string(&self) -> (r: String)
        ensures
            r@ == self.message(),
    {
        match self {
            UserAgentError::InvalidFormat => {
                "User agent must follow format '/name:version/'".to_owned()
            },
            UserAgentError::MissingName => "User agent name component cannot be empty".to_owned(),
            UserAgentError::MissingVersion => {
                "User agent version component cannot be empty".to_owned()
            },
        }
    }
}

/// The text of a user agent made of a name and a version.
pub open spec fn formatted(name: Seq<char>, version: Seq<char>) -> Seq<char> {
    "/"@ + name + ":"@ + version + "/"@
}

/// Whether a text is a user agent made of this name and this version, neither of which
/// holds a colon.
pub open spec fn splits_as(text: Seq<char>, name: Seq<char>, version: Seq<char>) -> bool {
    &&& !name.contains(':')
    &&& !version.contains(':')
    &&& text == formatted(name, version)
}

/// What validation says of a text.
pub open spec fn validation(text: Seq<char>) -> Result<(), UserAgentError> {
    if exists|name: Seq<char>, version: Seq<char>| splits_as(text, name, version) {
        let (name, version) = choose|name: Seq<char>, version: Seq<char>|
            splits_as(text, name, version);
        if name.len() == 0 {
            Err(UserAgentError::MissingName)
        } else if version.len() == 0 {
            Err(UserAgentError::MissingVersion)
        } else {
            Ok(())
        }
    } else {
        Err(UserAgentError::InvalidFormat)
    }
}

/// A text is made of at most one name and one version.
proof fn lemma_split_unique(
    text: Seq<char>,
    name: Seq<char>,
    version: Seq<char>,
    other_name: Seq<char>,
    other_version: Seq<char>,
)
    requires
        splits_as(text, name, version),
        splits_as(text, other_name, other_version),
    ensures
        name == other_name,
        version == other_version,
{
    reveal_strlit("/");
    reveal_strlit(":");
    let n = name.len() as int;
    let m = other_name.len() as int;
    assert(text[n + 1] == ':');
    assert(text[m + 1] == ':');
    if n < m {
        assert(other_name[n] == text[n + 1]);
        assert(other_name.contains(':'));
    }
    if m < n {
        assert(name[m] == text[m + 1]);
        assert(name.contains(':'));
    }
    assert(name =~= text.subrange(1, n + 1));
    assert(other_name =~= text.subrange(1, m + 1));
    assert(version =~= text.subrange(n + 2, text.len() - 1));
    assert(other_version =~= text.subrange(m + 2, text.len() - 1));
}

/// A text of the right form is refused where its name is empty, then where its version is, and is
/// valid otherwise.
pub proof fn law_validation_goes_by_name_and_version(
    text: Seq<char>,
    name: Seq<char>,
    version: Seq<char>,
)
    requires
        splits_as(text, name, version),
    ensures
        validation(text) == (if name.len() == 0 {
            Err::<(), UserAgentError>(UserAgentError::MissingName)
        } else if version.len() == 0 {
            Err(UserAgentError::MissingVersion)
        } else {
            Ok(())
        }),
{
    let (n, v) = choose|n: Seq<char>, v: Seq<char>| splits_as(text, n, v);
    lemma_split_unique(text, name, version, n, v);
}

/// A user agent written out of a name and a version, neither of them empty nor holding a colon,
/// is valid.
pub proof fn law_written_user_agent_is_valid(name: Seq<char>, version: Seq<char>)
    requires
        name.len() > 0,
        version.len() > 0,
        !name.contains(':'),
        !version.contains(':'),
    ensures
        validation(formatted(name, version)) == Ok::<(), UserAgentError>(()),
{
    law_validation_goes_by_name_and_version(formatted(name, version), name, version);
}

/// A valid user agent is one that can be written out of a name and a version, neither of them
/// empty nor holding a colon.
pub proof fn law_valid_user_agent_has_name_and_version(text: Seq<char>)
    requires
        validation(text) is Ok,
    ensures
        exists|name: Seq<char>, version: Seq<char>|
            splits_as(text, name, version) && name.len() > 0 && version.len() > 0,
{
    let (n, v) = choose|n: Seq<char>, v: Seq<char>| splits_as(text, n, v);
    assert(splits_as(text, n, v));
    law_validation_goes_by_name_and_version(text, n, v);
}

/// The first place of a colon among characters, or their number where there is none.
fn first_colon(chars: &Vec<char>, from: usize, to: usize) -> (r: usize)
    requires
        from <= to <= chars.len(),
    ensures
        from <= r <= to,
        forall|i: int| from <= i < r ==> chars@[i] != ':',
        r < to ==> chars@[r as int] == ':',
{
    let mut i: usize = from;
    while i < to
        invariant
            from <= i <= to <= chars.len(),
            forall|j: int| from <= j < i ==> chars@[j] != ':',
        decreases to - i,
    {
        if chars[i] == ':' {
            return i;
        }
        i = i + 1;
    }
    i
}

/// Checks that a user agent has the form `/name:version/`, with a name and a version that are not
/// empty and hold no colon.
pub fn validate_bitcoin_core_format(user_agent: &str) -> (r: Result<(), UserAgentError>)
    ensures
        r == validation(user_agent@),
{
    proof {
        reveal_strlit("/");
        reveal_strlit(":");
    }
    let chars = characters(user_agent);
    let count: usize = chars.len();
    if count < 3 || chars[0] != '/' || chars[count - 1] != '/' {
        return Err(UserAgentError::InvalidFormat);
    }
    let colon: usize = first_colon(&chars, 1, count - 1);
    if colon == count - 1 {
        proof {
            assert forall|n: Seq<char>, v: Seq<char>| !splits_as(user_agent@, n, v) by {
                if splits_as(user_agent@, n, v) {
                    let k = n.len() as int;
                    assert(user_agent@[k + 1] == ':');
                }
            }
        }
        return Err(UserAgentError::InvalidFormat);
    }
    let second: usize = first_colon(&chars, colon + 1, count - 1);
    if second < count - 1 {
        proof {
            assert forall|n: Seq<char>, v: Seq<char>| !splits_as(user_agent@, n, v) by {
                if splits_as(user_agent@, n, v) {
                    let k = n.len() as int;
                    assert(user_agent@[k + 1] == ':');
                    assert(k + 1 == colon) by {
                        if k + 1 > colon {
                            assert(n[colon - 1] == user_agent@[colon as int]);
                            assert(n.contains(':'));
                        }
                    }
                    assert(v[second - k - 2] == user_agent@[second as int]);
                    assert(v.contains(':'));
                }
            }
        }
        return Err(UserAgentError::InvalidFormat);
    }
    proof {
        let name = user_agent@.subrange(1, colon as int);
        let version = user_agent@.subrange(colon + 1, count - 1);
        assert(formatted(name, version) =~= user_agent@);
        assert(splits_as(user_agent@, name, version));
        law_validation_goes_by_name_and_version(user_agent@, name, version);
    }
    if colon == 1 {
        return Err(UserAgentError::MissingName);
    }
    if colon + 1 == count - 1 {
        return Err(UserAgentError::MissingVersion);
    }
    Ok(())
}

/// Writes a user agent out of a name and a version: `/name:version/`.
pub fn bitcoin_core_format(name: &str, version: &str) -> (r: String)
    ensures
        r@ == formatted(name@, version@),
{
    let mut text = "/".to_owned();
    text.append(name);
    text.append(":");
    text.append(version);
    text.append("/");
    text
}

/// A user agent.
#[derive(Debug)]
pub struct UserAgent {
    text: String,
}

impl View for UserAgent {
    type V = Seq<char>;

    closed spec fn view(&self) -> Seq<char> {
        self.text@
    }
}

impl UserAgent {
    /// Takes a text for a user agent, where it is a valid one.
    pub fn new(text: String) -> (r: Result<UserAgent, UserAgentError>)
        ensures
            match r {
                Ok(user_agent) => validation(text@) is Ok && user_agent@ == text@,
                Err(error) => validation(text@) == Err::<(), UserAgentError>(error),
            },
    {
        match validate_bitcoin_core_format(text.as_str()) {
            Ok(_) => Ok(UserAgent { text }),
            Err(error) => Err(error),
        }
    }

    /// Makes the user agent `/name:version/`.
    pub fn from_name_version(name: &str, version: &str) -> (r: UserAgent)
        ensures
            r@ == formatted(name@, version@),
    {
        UserAgent { text: bitcoin_core_format(name, version) }
    }

    /// The text of the user agent.
    pub fn as_str(&self) -> (r: &str)
        ensures
            r@ == self@,
    {
        self.text.as_str()
    }

    /// A copy of the text of the user agent.
    pub fn to_string(&self) -> (r: String)
        ensures
            r@ == self@,
    {
        self.text.clone()
    }
}

impl Clone for UserAgent {
    fn clone(&self) -> (r: UserAgent)
        ensures
            r@ == self@,
    {
        UserAgent { text: self.text.clone() }
    }
}

/// Whether a text starts and ends with a slash, and has a colon at some place between them and no
/// other.
pub open spec fn has_only_colon_at(text: Seq<char>, place: int) -> bool {
    &&& text.len() >= 3
    &&& text[0] == '/'
    &&& text[text.len() - 1] == '/'
    &&& 0 < place < text.len() - 1
    &&& text[place] == ':'
    &&& forall|i: int| 0 < i < text.len() - 1 && i != place ==> #[trigger] text[i] != ':'
}

/// A text has the form of a user agent exactly when it has slashes at its ends and one colon
/// between them; what stands before the colon is its name, and what stands behind it its version.
proof fn lemma_only_colon(text: Seq<char>, place: int)
    ensures
        has_only_colon_at(text, place) ==> splits_as(
            text,
            text.subrange(1, place),
            text.subrange(place + 1, text.len() - 1),
        ),
        forall|name: Seq<char>, version: Seq<char>|
            splits_as(text, name, version) ==> has_only_colon_at(text, name.len() as int + 1),
{
    reveal_strlit("/");
    reveal_strlit(":");
    if has_only_colon_at(text, place) {
        let name = text.subrange(1, place);
        let version = text.subrange(place + 1, text.len() - 1);
        assert(text =~= formatted(name, version));
        if name.contains(':') {
            let i = choose|i: int| 0 <= i < name.len() && name[i] == ':';
            assert(text[i + 1] == ':');
        }
        if version.contains(':') {
            let i = choose|i: int| 0 <= i < version.len() && version[i] == ':';
            assert(text[place + 1 + i] == ':');
        }
    }
    assert forall|name: Seq<char>, version: Seq<char>|
        splits_as(text, name, version) implies has_only_colon_at(text, name.len() as int + 1) by {
        let k = name.len() as int + 1;
        assert forall|i: int| 0 < i < text.len() - 1 && i != k implies #[trigger] text[i]
            != ':' by {
            if i < k {
                assert(text[i] == name[i - 1]);
                assert(name.contains(name[i - 1]));
            } else {
                assert(text[i] == version[i - k - 1]);
                assert(version.contains(version[i - k - 1]));
            }
        }
    }
}

/// A user agent is accepted exactly when it has a slash at either end and one colon between them,
/// with something before the colon and something behind it. Where there is nothing before the colon
/// the name is missing, else where there is nothing behind it the version; and where there is not
/// one colon between slashes the form is wrong.
pub proof fn law_user_agents_have_slashes_and_one_colon(
    user_agent: &str,
    r: Result<(), UserAgentError>,
)
    requires
        call_ensures(validate_bitcoin_core_format, (user_agent,), r),
    ensures
        match r {
            Ok(_) => exists|place: int| #[trigger]
                has_only_colon_at(user_agent@, place) && 1 < place < user_agent@.len() - 2,
            Err(UserAgentError::MissingName) => has_only_colon_at(user_agent@, 1),
            Err(UserAgentError::MissingVersion) => {
                &&& has_only_colon_at(user_agent@, user_agent@.len() - 2)
                &&& user_agent@.len() > 3
            },
            Err(UserAgentError::InvalidFormat) => forall|place: int| !#[trigger] has_only_colon_at(
                user_agent@,
                place,
            ),
        },
{
    let text = user_agent@;
    assert forall|place: int| #[trigger] has_only_colon_at(text, place) implies validation(text)
        == (if place == 1 {
        Err::<(), UserAgentError>(UserAgentError::MissingName)
    } else if place == text.len() - 2 {
        Err(UserAgentError::MissingVersion)
    } else {
        Ok(())
    }) by {
        lemma_only_colon(text, place);
        law_validation_goes_by_name_and_version(
            text,
            text.subrange(1, place),
            text.subrange(place + 1, text.len() - 1),
        );
    }
    if validation(text) != Err::<(), UserAgentError>(UserAgentError::InvalidFormat) {
        let (name, version) = choose|name: Seq<char>, version: Seq<char>|
            splits_as(text, name, version);
        lemma_only_colon(text, 0);
        assert(splits_as(text, name, version));
        assert(has_only_colon_at(text, name.len() as int + 1));
    }
}

/// A user agent is written as a slash, its name, a colon, its version and a slash.
pub proof fn law_user_agents_are_written_with_slashes_and_a_colon(
    name: &str,
    version: &str,
    r: String,
    made: UserAgent,
)
    requires
        call_ensures(bitcoin_core_format, (name, version), r),
        call_ensures(UserAgent::from_name_version, (name, version), made),
    ensures
        made@ == r@,
        r@.len() == name@.len() + version@.len() + 3,
        r@[0] == '/',
        r@.subrange(1, name@.len() as int + 1) == name@,
        r@[name@.len() as int + 1] == ':',
        r@.subrange(name@.len() as int + 2, r@.len() - 1) == version@,
        r@[r@.len() - 1] == '/',
{
    reveal_strlit("/");
    reveal_strlit(":");
    assert(r@.subrange(1, name@.len() as int + 1) =~= name@);
    assert(r@.subrange(name@.len() as int + 2, r@.len() - 1) =~= version@);
}

/// A text becomes a user agent exactly when it is accepted as one, and is kept as it is; else what
/// is wrong with it is told.
pub proof fn law_user_agents_are_what_was_accepted(
    text: String,
    accepted: Result<(), UserAgentError>,
    r: Result<UserAgent, UserAgentError>,
)
    requires
        accepted == validation(text@),
        call_ensures(UserAgent::new, (text,), r),
    ensures
        match accepted {
            Ok(_) => r matches Ok(user_agent) && user_agent@ == text@,
            Err(error) => r matches Err(told) && told == error,
        },
{
}

/// What is wrong with a user agent is told in words that name the part that is wrong.
pub proof fn law_errors_name_the_wrong_part(error: UserAgentError, r: String)
    requires
        call_ensures(UserAgentError::to_string, (&error,), r),
    ensures
        match error {
            UserAgentError::InvalidFormat => {
                r@ == "User agent must follow format '/name:version/'"@
            },
            UserAgentError::MissingName => r@ == "User agent name component cannot be empty"@,
            UserAgentError::MissingVersion => r@ == "User agent version component cannot be empty"@,
        },
{
}

/// A user agent gives back the text that it was made of, and so does a copy of it.
pub proof fn law_user_agents_give_back_their_text(
    text: String,
    made: UserAgent,
    copy: UserAgent,
    borrowed: &str,
    copied: String,
)
    requires
        call_ensures(UserAgent::new, (text,), Ok(made)),
        call_ensures(UserAgent::clone, (&made,), copy),
        call_ensures(UserAgent::as_str, (&copy,), borrowed),
        call_ensures(UserAgent::to_string, (&copy,), copied),
    ensures
        borrowed@ == text@,
        copied@ == text@,
{
}

} // verus!
