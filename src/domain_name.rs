//! Where the challenge record of a domain lives.
//!
//! The zone is taken to be the last two labels of the domain (a flat
//! two-label approximation of the public suffix rules, so `example.co.uk`
//! yields the zone `co.uk`); the labels before it become the name of the
//! challenge record relative to that zone.
use vstd::prelude::*;

verus! {

/// The label under which ACME looks for the DNS-01 proof.
pub const ACME_CHALLENGE_SUBDOMAIN: &'static str = "_acme-challenge";

/// Index of the last `.` in `s`, if there is one.
pub open spec fn last_dot(s: Seq<char>) -> Option<int>
    decreases s.len(),
{
    if s.len() == 0 {
        None
    } else if s.last() == '.' {
        Some(s.len() - 1)
    } else {
        last_dot(s.drop_last())
    }
}

/// Index of the dot that separates the zone from the rest of `domain`: the
/// second `.` counted from the end, if the domain has more than two labels.
pub open spec fn zone_separator(domain: Seq<char>) -> Option<int> {
    match last_dot(domain) {
        Some(i) => last_dot(domain.subrange(0, i)),
        None => None,
    }
}

/// The zone under which the challenge record of `domain` is managed.
pub open spec fn zone_of(domain: Seq<char>) -> Seq<char> {
    match zone_separator(domain) {
        Some(j) => domain.subrange(j + 1, domain.len() as int),
        None => domain,
    }
}

/// The name of the challenge record of `domain`, relative to its zone.
pub open spec fn challenge_name_of(domain: Seq<char>) -> Seq<char> {
    match zone_separator(domain) {
        Some(j) => ACME_CHALLENGE_SUBDOMAIN@ + seq!['.'] + domain.subrange(0, j),
        None => ACME_CHALLENGE_SUBDOMAIN@,
    }
}

/// The dot-separated labels of `s`, from left to right.
pub open spec fn labels(s: Seq<char>) -> Seq<Seq<char>>
    decreases s.len() via labels_decreases
{
    match last_dot(s) {
        Some(i) => labels(s.subrange(0, i)).push(s.subrange(i + 1, s.len() as int)),
        None => seq![s],
    }
}

#[via_fn]
proof fn labels_decreases(s: Seq<char>) {
    lemma_last_dot(s);
}

/// The labels `ls` written out with a `.` between each two.
pub open spec fn join_labels(ls: Seq<Seq<char>>) -> Seq<char>
    decreases ls.len(),
{
    if ls.len() == 0 {
        Seq::empty()
    } else if ls.len() == 1 {
        ls[0]
    } else {
        join_labels(ls.drop_last()) + seq!['.'] + ls.last()
    }
}

/// What `last_dot` finds is a dot, and no dot follows it.
pub proof fn lemma_last_dot(s: Seq<char>)
    ensures
        last_dot(s) matches Some(i) ==> 0 <= i < s.len() && s[i] == '.' && forall|k: int|
            i < k < s.len() ==> s[k] != '.',
        last_dot(s) is None ==> forall|k: int| 0 <= k < s.len() ==> s[k] != '.',
    decreases s.len(),
{
    if s.len() > 0 && s.last() != '.' {
        let t = s.drop_last();
        lemma_last_dot(t);
        assert forall|k: int| 0 <= k < t.len() implies #[trigger] s[k] == t[k] by {}
    }
}

/// Every string has at least one label, possibly empty.
pub proof fn lemma_labels_nonempty(s: Seq<char>)
    ensures
        labels(s).len() >= 1,
    decreases s.len(),
{
    lemma_last_dot(s);
    if let Some(i) = last_dot(s) {
        lemma_labels_nonempty(s.subrange(0, i));
    }
}

/// Joining the labels of a string gives the string back.
pub proof fn lemma_join_labels(s: Seq<char>)
    ensures
        join_labels(labels(s)) == s,
    decreases s.len(),
{
    lemma_last_dot(s);
    if let Some(i) = last_dot(s) {
        let head = s.subrange(0, i);
        lemma_join_labels(head);
        lemma_labels_nonempty(head);
        let ls = labels(s);
        assert(ls.drop_last() =~= labels(head));
        assert(head + seq!['.'] + s.subrange(i + 1, s.len() as int) =~= s);
    }
}

/// A domain of at most two labels is its own zone, and its challenge record
/// sits at the zone's apex under the bare challenge label.
pub proof fn law_short_domain(domain: Seq<char>)
    requires
        labels(domain).len() <= 2,
    ensures
        zone_of(domain) == domain,
        challenge_name_of(domain) == ACME_CHALLENGE_SUBDOMAIN@,
{
    lemma_last_dot(domain);
    if let Some(i) = last_dot(domain) {
        let head = domain.subrange(0, i);
        lemma_last_dot(head);
        if let Some(j) = last_dot(head) {
            lemma_labels_nonempty(head.subrange(0, j));
            assert(labels(head).len() >= 2);
            assert(false);
        }
    }
}

/// For a domain of more than two labels, the zone is its last two labels, and
/// the challenge record name is the challenge label followed by all the other
/// labels, joined by dots.
pub proof fn law_long_domain(domain: Seq<char>)
    requires
        labels(domain).len() > 2,
    ensures
        ({
            let ls = labels(domain);
            let n = ls.len() as int;
            &&& zone_of(domain) == join_labels(ls.subrange(n - 2, n))
            &&& challenge_name_of(domain) == ACME_CHALLENGE_SUBDOMAIN@ + seq!['.'] + join_labels(
                ls.subrange(0, n - 2),
            )
        }),
{
    lemma_last_dot(domain);
    let len = domain.len() as int;
    let i = last_dot(domain)->0;
    let head = domain.subrange(0, i);
    lemma_last_dot(head);
    lemma_labels_nonempty(head);
    let j = last_dot(head)->0;
    let front = domain.subrange(0, j);
    assert(head.subrange(0, j) =~= front);
    assert(head.subrange(j + 1, head.len() as int) =~= domain.subrange(j + 1, i));
    let mid = domain.subrange(j + 1, i);
    let tail = domain.subrange(i + 1, len);
    assert(labels(head) == labels(front).push(mid));
    let ls = labels(domain);
    assert(ls == labels(front).push(mid).push(tail));
    let n = ls.len() as int;
    assert(ls.subrange(0, n - 2) =~= labels(front));
    lemma_join_labels(front);
    let last_two = ls.subrange(n - 2, n);
    assert(last_two =~= seq![mid, tail]);
    assert(last_two.drop_last() =~= seq![mid]);
    assert(join_labels(seq![mid]) == mid);
    assert(join_labels(last_two) == mid + seq!['.'] + tail);
    assert(domain.subrange(j + 1, i) + seq!['.'] + domain.subrange(i + 1, len) =~= domain.subrange(
        j + 1,
        len,
    ));
}

/// The zone and the challenge record name derived from one domain.
pub struct ZoneAndChallengeName {
    pub zone: Seq<char>,
    pub challenge_record_name: Seq<char>,
}

/// The zone ("root domain") of a domain and the name of its challenge record.
pub struct RootDomainAndChallengeRecord {
    root_domain: String,
    challenge_record_name: String,
}

impl View for RootDomainAndChallengeRecord {
    type V = ZoneAndChallengeName;

    closed spec fn view(&self) -> ZoneAndChallengeName {
        ZoneAndChallengeName {
            zone: self.root_domain@,
            challenge_record_name: self.challenge_record_name@,
        }
    }
}

impl RootDomainAndChallengeRecord {
    pub fn root_domain(&self) -> (r: &str)
        ensures
            r@ == self@.zone,
    {
        self.root_domain.as_str()
    }

    pub fn challenge_record_name(&self) -> (r: &str)
        ensures
            r@ == self@.challenge_record_name,
    {
        self.challenge_record_name.as_str()
    }
}

/// Index of the last `.` among the first `end` characters of `s`.
fn find_last_dot(s: &str, end: usize) -> (r: Option<usize>)
    requires
        end <= s@.len(),
    ensures
        r matches Some(i) ==> i < end && last_dot(s@.subrange(0, end as int)) == Some(i as int),
        r is None ==> last_dot(s@.subrange(0, end as int)) is None,
{
    let mut i: usize = end;
    while i > 0
        invariant
            i <= end <= s@.len(),
            last_dot(s@.subrange(0, end as int)) == last_dot(s@.subrange(0, i as int)),
        decreases i,
    {
        let c = s.get_char(i - 1);
        assert(s@.subrange(0, i as int).drop_last() =~= s@.subrange(0, i - 1));
        if c == '.' {
            return Some(i - 1);
        }
        i = i - 1;
    }
    assert(s@.subrange(0, 0) =~= Seq::<char>::empty());
    None
}

/// Splits `domain` into the zone under which its challenge record is managed
/// and the name of that record relative to the zone.
///
/// With at most two labels the whole domain is the zone and the record sits at
/// its apex (`_acme-challenge`); otherwise the last two labels are the zone and
/// the others follow the challenge label (`_acme-challenge.foo.bar`).
pub fn get_domain_names_to_use(domain: &str) -> (r: RootDomainAndChallengeRecord)
    ensures
        r@.zone == zone_of(domain@),
        r@.challenge_record_name == challenge_name_of(domain@),
{
    let n = domain.unicode_len();
    assert(domain@.subrange(0, n as int) =~= domain@);
    if let Some(rightmost) = find_last_dot(domain, n) {
        if let Some(sep) = find_last_dot(domain, rightmost) {
            let mut name = String::from_str(ACME_CHALLENGE_SUBDOMAIN);
            name.append(".");
            name.append(domain.substring_char(0, sep));
            proof {
                reveal_strlit(".");
            }
            return RootDomainAndChallengeRecord {
                root_domain: String::from_str(domain.substring_char(sep + 1, n)),
                challenge_record_name: name,
            };
        }
    }
    RootDomainAndChallengeRecord {
        root_domain: String::from_str(domain),
        challenge_record_name: String::from_str(ACME_CHALLENGE_SUBDOMAIN),
    }
}

} // verus!
