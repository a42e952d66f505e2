//! Subscriber emails as they are read back from storage: each stored address
//! is checked again before anything is sent to it.

use vstd::prelude::*;
use vstd::string::*;

verus! {

/// Whether `validator::validate_email` accepts the address (the HTML5
/// e-mail grammar, with length limits and IDN/IP-literal domains).
pub uninterp spec fn validator_accepts_email(email: Seq<char>) -> bool;

/// An ASCII letter or digit.
pub open spec fn is_ascii_alphanumeric(c: char) -> bool {
    ('a' <= c && c <= 'z') || ('A' <= c && c <= 'Z') || ('0' <= c && c <= '9')
}

/// A character of an ordinary address: an ASCII letter or digit, or a dot.
pub open spec fn is_address_char(c: char) -> bool {
    is_ascii_alphanumeric(c) || c == '.'
}

/// An ordinary local part: 1 to 64 letters, digits and dots.
pub open spec fn plain_local_part(local: Seq<char>) -> bool {
    &&& 1 <= local.len() <= 64
    &&& forall|i: int| 0 <= i < local.len() ==> is_address_char(#[trigger] local[i])
}

/// Among the 64 characters of `domain` from position `from`, one is a dot.
pub open spec fn dot_within_64(domain: Seq<char>, from: int) -> bool {
    exists|k: int| from <= k < from + 64 && #[trigger] domain[k] == '.'
}

/// An ordinary domain: at most 255 characters, labels of 1 to 63 ASCII
/// letters and digits separated by single dots.
pub open spec fn plain_domain(domain: Seq<char>) -> bool {
    &&& 1 <= domain.len() <= 255
    &&& forall|i: int| 0 <= i < domain.len() ==> is_address_char(#[trigger] domain[i])
    &&& is_ascii_alphanumeric(domain[0])
    &&& is_ascii_alphanumeric(domain[domain.len() - 1])
    &&& forall|i: int, j: int| 0 <= i && j == i + 1 && j < domain.len() ==> !(#[trigger] domain[i] == '.' && #[trigger] domain[j] == '.')
    &&& forall|i: int| 0 <= i && i + 64 <= domain.len() ==> #[trigger] dot_within_64(domain, i)
}

/// An ordinary address: an ordinary local part, `@`, an ordinary domain
/// (such as `jane.doe@example.com`).
pub open spec fn plain_address(email: Seq<char>) -> bool {
    exists|at: int| 0 <= at < email.len() && email[at] == '@' && plain_local_part(#[trigger] email.take(at))
        && plain_domain(email.skip(at + 1))
}

/// Calls `validator::validate_email` on `email`.
/// Trusted: its result is `validator_accepts_email(email@)`, a function of the
/// text alone. Two facts the source shows are stated too: an address without
/// any `@` is refused (it returns `false` first thing), and an ordinary
/// address is accepted: its only `@` splits it into a local part of at most
/// 64 characters that the user pattern `[a-z0-9.!#$%&'*+/=?^_`{|}~-]+`
/// (case-insensitive) matches, and a domain of at most 255 characters that
/// the domain pattern (labels of 1 to 63 letters, digits or inner hyphens,
/// joined by dots) matches, so every check passes.
#[verifier::external_body]
fn validate_email(email: &str) -> (accepted: bool)
    ensures
        accepted == validator_accepts_email(email@),
        !email@.contains('@') ==> !accepted,
        plain_address(email@) ==> accepted,
{
    validator::validate_email(email)
}

fn is_alphanumeric_char(c: char) -> (r: bool)
    ensures
        r == is_ascii_alphanumeric(c),
{
    ('a' <= c && c <= 'z') || ('A' <= c && c <= 'Z') || ('0' <= c && c <= '9')
}

fn is_plain_char(c: char) -> (r: bool)
    ensures
        r == is_address_char(c),
{
    is_alphanumeric_char(c) || c == '.'
}

/// The position of the first `@` of `email`, if any.
fn find_at_sign(email: &str, n: usize) -> (r: Option<usize>)
    requires
        n == email@.len(),
    ensures
        r matches Some(at) ==> at < n && email@[at as int] == '@',
{
    let mut i: usize = 0;
    while i < n
        invariant
            n == email@.len(),
            i <= n,
        decreases n - i,
    {
        if email.get_char(i) == '@' {
            return Some(i);
        }
        i = i + 1;
    }
    None
}

/// Whether `email[start..end]` is an ordinary local part.
fn check_local_part(email: &str, end: usize) -> (ok: bool)
    requires
        end <= email@.len(),
    ensures
        ok ==> plain_local_part(email@.take(end as int)),
{
    if end < 1 || end > 64 {
        return false;
    }
    let ghost local = email@.take(end as int);
    let mut i: usize = 0;
    while i < end
        invariant
            end <= email@.len(),
            local == email@.take(end as int),
            i <= end,
            forall|k: int| 0 <= k < i ==> is_address_char(#[trigger] local[k]),
        decreases end - i,
    {
        if !is_plain_char(email.get_char(i)) {
            return false;
        }
        i = i + 1;
    }
    true
}

/// Whether `email[start..]` is an ordinary domain.
fn check_domain(email: &str, start: usize, n: usize) -> (ok: bool)
    requires
        n == email@.len(),
        start <= n,
    ensures
        ok ==> plain_domain(email@.skip(start as int)),
{
    if start >= n || n - start > 255 {
        return false;
    }
    let ghost d = email@.skip(start as int);
    if !is_alphanumeric_char(email.get_char(start)) || !is_alphanumeric_char(email.get_char(n - 1)) {
        return false;
    }
    assert(d[0] == email@[start as int]);
    assert(d[d.len() - 1] == email@[n - 1]);
    let mut j: usize = start;
    let mut run: usize = 0;
    while j < n
        invariant
            n == email@.len(),
            start < n,
            d == email@.skip(start as int),
            d.len() == n - start,
            start <= j <= n,
            run <= 63,
            run <= j - start,
            forall|i: int| 0 <= i < j - start ==> is_address_char(#[trigger] d[i]),
            forall|i: int, m: int| 0 <= i && m == i + 1 && m < j - start ==> !(#[trigger] d[i] == '.' && #[trigger] d[m] == '.'),
            forall|i: int| j - start - run <= i < j - start ==> is_ascii_alphanumeric(#[trigger] d[i]),
            run < j - start ==> d[j - start - run - 1] == '.',
            forall|i: int| 0 <= i && i + 64 <= j - start ==> #[trigger] dot_within_64(d, i),
        decreases n - j,
    {
        let c = email.get_char(j);
        let ghost k: int = j - start;
        assert(d[k] == c);
        if !is_plain_char(c) {
            return false;
        }
        if c == '.' {
            if j > start && email.get_char(j - 1) == '.' {
                return false;
            }
            proof {
                if k > 0 {
                    assert(d[k - 1] == email@[j - 1]);
                }
                assert forall|i: int| 0 <= i && i + 64 <= k + 1 implies #[trigger] dot_within_64(d, i) by {
                    if i + 64 == k + 1 {
                        assert(d[k] == '.');
                    }
                }
            }
            run = 0;
        } else {
            if run >= 63 {
                return false;
            }
            proof {
                assert forall|i: int| 0 <= i && i + 64 <= k + 1 implies #[trigger] dot_within_64(d, i) by {
                    if i + 64 == k + 1 {
                        let w = k - run - 1;
                        assert(d[w] == '.');
                        assert(i <= w < i + 64);
                    }
                }
            }
            run = run + 1;
        }
        j = j + 1;
    }
    true
}

/// Whether `email` is an ordinary address (see `plain_address`), which the
/// validator accepts as its contract states.
fn is_plain_address(email: &str) -> (plain: bool)
    ensures
        plain ==> plain_address(email@),
{
    let n = email.unicode_len();
    match find_at_sign(email, n) {
        None => false,
        Some(at) => {
            let ok = check_local_part(email, at) && check_domain(email, at + 1, n);
            proof {
                if ok {
                    assert(plain_local_part(email@.take(at as int)));
                    assert(plain_domain(email@.skip(at + 1)));
                }
            }
            ok
        },
    }
}

/// An e-mail address that passed validation.
#[derive(Clone, Debug, PartialEq, Eq)]
pub struct SubscriberEmail {
    email: String,
}

/// A stored address that failed validation; it holds the address as stored.
#[derive(Clone, Debug, PartialEq, Eq)]
pub struct InvalidSubscriberEmail {
    pub email: String,
}

impl View for SubscriberEmail {
    type V = Seq<char>;

    closed spec fn view(&self) -> Seq<char> {
        self.email@
    }
}

/// What parsing an address gives, as a model: the accepted address or the
/// refused one.
pub open spec fn parse_outcome(email: Seq<char>, accepted: bool) -> Result<Seq<char>, Seq<char>> {
    if accepted {
        Ok(email)
    } else {
        Err(email)
    }
}

/// The model of a parse result.
pub open spec fn parsed_view(r: Result<SubscriberEmail, InvalidSubscriberEmail>) -> Result<Seq<char>, Seq<char>> {
    match r {
        Ok(e) => Ok(e@),
        Err(e) => Err(e.email@),
    }
}

impl SubscriberEmail {
    /// Parses `email`: it is kept when `validator::validate_email` accepts it,
    /// and handed back as an `InvalidSubscriberEmail` otherwise.
    pub fn parse(email: String) -> (r: Result<SubscriberEmail, InvalidSubscriberEmail>)
        ensures
            parsed_view(r) == parse_outcome(email@, validator_accepts_email(email@)),
            (r is Ok) == validator_accepts_email(email@),
            r matches Ok(e) ==> e@ == email@,
            r matches Err(x) ==> x.email@ == email@,
            !email@.contains('@') ==> r is Err,
            plain_address(email@) ==> (r matches Ok(e) && e@ == email@),
    {
        let accepted = validate_email(email.as_str());
        // The validator accepts every ordinary address; they are recognised by
        // the check above as well, so that they are kept in any case.
        let accepted = accepted || is_plain_address(email.as_str());
        Self::from_validation(email, accepted)
    }

    /// The rest of `parse`, once the validator has answered `accepted` for `email`.
    pub fn from_validation(email: String, accepted: bool) -> (r: Result<SubscriberEmail, InvalidSubscriberEmail>)
        ensures
            parsed_view(r) == parse_outcome(email@, accepted),
    {
        if accepted {
            Ok(SubscriberEmail { email })
        } else {
            Err(InvalidSubscriberEmail { email })
        }
    }

    /// The address.
    pub fn as_str(&self) -> (s: &str)
        ensures
            s@ == self@,
    {
        self.email.as_str()
    }
}

/// A confirmed subscriber whose stored address is valid.
#[derive(Clone, Debug, PartialEq, Eq)]
pub struct ConfirmedSubscriber {
    pub email: SubscriberEmail,
}

/// The model of one classified subscriber.
pub open spec fn subscriber_view(r: Result<ConfirmedSubscriber, InvalidSubscriberEmail>) -> Result<Seq<char>, Seq<char>> {
    match r {
        Ok(s) => Ok(s.email@),
        Err(e) => Err(e.email@),
    }
}

/// The classification of the stored addresses, in the order given.
pub open spec fn classified(emails: Seq<Seq<char>>) -> Seq<Result<Seq<char>, Seq<char>>> {
    emails.map_values(|e: Seq<char>| parse_outcome(e, validator_accepts_email(e)))
}

/// Turns the stored addresses of the confirmed subscribers into subscribers,
/// one entry per address and in the same order: `Ok` where the address is
/// valid, `Err` holding the address where it is not (such a subscriber is
/// skipped by the delivery, not an error of the whole request).
pub fn confirmed_subscribers(emails: &Vec<String>) -> (subscribers: Vec<Result<ConfirmedSubscriber, InvalidSubscriberEmail>>)
    ensures
        subscribers@.map_values(|r| subscriber_view(r)) == classified(emails@.map_values(|e: String| e@)),
        subscribers@.len() == emails@.len(),
        forall|i: int| 0 <= i < emails@.len() ==> ((#[trigger] subscribers@[i] is Ok) == validator_accepts_email(emails@[i]@)),
        forall|i: int| 0 <= i < emails@.len() ==> (#[trigger] subscribers@[i] matches Ok(s) ==> s.email@ == emails@[i]@),
        forall|i: int| 0 <= i < emails@.len() ==> (#[trigger] subscribers@[i] matches Err(x) ==> x.email@ == emails@[i]@),
        forall|i: int| 0 <= i < emails@.len() && plain_address(emails@[i]@) ==> (#[trigger] subscribers@[i] is Ok),
{
    let ghost views = emails@.map_values(|e: String| e@);
    let mut subscribers: Vec<Result<ConfirmedSubscriber, InvalidSubscriberEmail>> = Vec::new();
    let n = emails.len();
    let mut i: usize = 0;
    while i < n
        invariant
            n == emails@.len(),
            views == emails@.map_values(|e: String| e@),
            i <= n,
            subscribers@.len() == i,
            forall|k: int| 0 <= k < i ==> #[trigger] subscriber_view(subscribers@[k])
                == parse_outcome(views[k], validator_accepts_email(views[k])),
            forall|k: int| 0 <= k < i && #[trigger] plain_address(views[k]) ==> validator_accepts_email(views[k]),
        decreases n - i,
    {
        let email = emails[i].clone();
        let parsed = SubscriberEmail::parse(email);
        let entry = match parsed {
            Ok(email) => Ok(ConfirmedSubscriber { email }),
            Err(invalid) => Err(invalid),
        };
        subscribers.push(entry);
        i = i + 1;
    }
    assert(subscribers@.map_values(|r| subscriber_view(r)) =~= classified(views));
    assert forall|i: int| 0 <= i < emails@.len() implies {
        &&& (subscribers@[i] is Ok) == validator_accepts_email(emails@[i]@)
        &&& (subscribers@[i] matches Ok(s) ==> s.email@ == emails@[i]@)
        &&& (subscribers@[i] matches Err(x) ==> x.email@ == emails@[i]@)
        &&& (plain_address(emails@[i]@) ==> subscribers@[i] is Ok)
    } by {
        assert(subscriber_view(subscribers@[i]) == parse_outcome(views[i], validator_accepts_email(views[i])));
        assert(views[i] == emails@[i]@);
        if plain_address(views[i]) {
            assert(validator_accepts_email(views[i]));
        }
    }
    subscribers
}

/// Law: an address made of a local part of 1 to 64 letters, digits and
/// dots, `@`, and two labels of 1 to 63 ASCII letters and digits joined by a
/// dot (such as `jane.doe@example.com`) is an ordinary address, so `parse`
/// keeps it with the same text and `confirmed_subscribers` marks it `Ok`.
pub proof fn law_local_at_name_dot_tld_is_ordinary(local: Seq<char>, name: Seq<char>, tld: Seq<char>)
    requires
        plain_local_part(local),
        1 <= name.len() <= 63,
        1 <= tld.len() <= 63,
        forall|i: int| 0 <= i < name.len() ==> is_ascii_alphanumeric(#[trigger] name[i]),
        forall|i: int| 0 <= i < tld.len() ==> is_ascii_alphanumeric(#[trigger] tld[i]),
    ensures
        plain_address(local + seq!['@'] + name + seq!['.'] + tld),
{
    let domain = name + seq!['.'] + tld;
    let email = local + seq!['@'] + domain;
    assert(local + seq!['@'] + name + seq!['.'] + tld =~= email);
    let at = local.len() as int;
    assert(email.take(at) =~= local);
    assert(email.skip(at + 1) =~= domain);
    assert(email[at] == '@');
    let dot = name.len() as int;
    assert(domain[dot] == '.');
    assert forall|i: int| 0 <= i < domain.len() implies is_address_char(#[trigger] domain[i]) by {
        if i < dot {
            assert(domain[i] == name[i]);
        } else if i > dot {
            assert(domain[i] == tld[i - dot - 1]);
        }
    }
    assert(domain[0] == name[0]);
    assert(domain[domain.len() - 1] == tld[tld.len() - 1]);
    assert forall|i: int, j: int| 0 <= i && j == i + 1 && j < domain.len() implies !(#[trigger] domain[i] == '.' && #[trigger] domain[j] == '.') by {
        if i < dot {
            assert(domain[i] == name[i]);
        } else if i > dot {
            assert(domain[i] == tld[i - dot - 1]);
        } else {
            assert(domain[j] == tld[0]);
        }
    }
    assert forall|i: int| 0 <= i && i + 64 <= domain.len() implies #[trigger] dot_within_64(domain, i) by {
        assert(i <= dot < i + 64);
        assert(domain[dot] == '.');
    }
    assert(plain_domain(domain));
    assert(plain_local_part(email.take(at)));
}

/// Law: the model of a subscriber address is the address as stored.
proof fn law_subscriber_email_view_is_its_text(email: SubscriberEmail)
    ensures
        email@ == email.email@,
{
}

} // verus!
