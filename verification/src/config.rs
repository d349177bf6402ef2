//! The client configuration: which key exchanges are offered, and keepalives.

use vstd::prelude::*;
use vstd::string::*;

verus! {

/// Interval between keepalives, in seconds.
pub const KEEPALIVE_INTERVAL_SECS: u64 = 15;

/// Keepalives without an answer after which the connection is closed.
pub const KEEPALIVE_MAX: usize = 3;

/// The algorithms offered to the server, in order of preference.
#[derive(Clone, Debug, PartialEq, Eq)]
pub struct Preferred {
    /// Names of the key exchange algorithms.
    pub kex: Vec<String>,
}

/// The configuration of a client connection. What it does not name is left as
/// the SSH implementation has it by default.
#[derive(Clone, Debug, PartialEq, Eq)]
pub struct ClientConfig {
    pub preferred: Preferred,
    /// Seconds without traffic after which the connection is closed.
    pub inactivity_timeout_secs: Option<u64>,
    /// Seconds without traffic from the server after which a keepalive is sent.
    pub keepalive_interval_secs: Option<u64>,
    /// Keepalives without an answer after which the connection is closed.
    pub keepalive_max: usize,
}

/// The given names as texts.
pub open spec fn texts(names: Seq<String>) -> Seq<Seq<char>> {
    names.map_values(|name: String| name@)
}

/// The NIST elliptic curve key exchanges, in order of preference.
pub open spec fn nist_ecdh() -> Seq<Seq<char>> {
    seq!["ecdh-sha2-nistp256"@, "ecdh-sha2-nistp384"@, "ecdh-sha2-nistp521"@]
}

/// The key exchanges that `russh` prefers by default.
pub open spec fn default_kex() -> Seq<Seq<char>> {
    seq![
        "curve25519-sha256"@,
        "curve25519-sha256@libssh.org"@,
        "diffie-hellman-group16-sha512"@,
        "diffie-hellman-group14-sha256"@,
        "ext-info-c"@,
        "ext-info-s"@,
        "kex-strict-c-v00@openssh.com"@,
        "kex-strict-s-v00@openssh.com"@,
    ]
}

/// `kex` with `name` put in at `position`, unless it is there already.
pub open spec fn offered(kex: Seq<Seq<char>>, name: Seq<char>, position: int) -> Seq<Seq<char>> {
    if kex.contains(name) {
        kex
    } else {
        kex.insert(position, name)
    }
}

/// `kex` with the first `count` of the NIST key exchanges offered, from the
/// third place on.
pub open spec fn with_nist_ecdh(kex: Seq<Seq<char>>, count: nat) -> Seq<Seq<char>>
    decreases count,
{
    if count == 0 {
        kex
    } else {
        offered(
            with_nist_ecdh(kex, (count - 1) as nat),
            nist_ecdh()[count - 1],
            2 + (count - 1),
        )
    }
}

/// `kex` is long enough for each NIST key exchange that it lacks to be put in
/// at its place.
pub open spec fn has_room(kex: Seq<Seq<char>>) -> bool {
    forall|offset: nat|
        #![trigger with_nist_ecdh(kex, offset)]
        offset < 3 && !with_nist_ecdh(kex, offset).contains(nist_ecdh()[offset as int]) ==> 2
            + offset <= with_nist_ecdh(kex, offset).len()
}

/// The names in `russh::Preferred::default().kex`, in that order.
#[verifier::external_body]
fn default_kex_names() -> (names: Vec<String>)
    ensures
        texts(names@) == default_kex(),
{
    russh::Preferred::default().kex.iter().map(|name| name.as_ref().to_string()).collect()
}

/// The name of `russh::kex::ECDH_SHA2_NISTP256`.
#[verifier::external_body]
fn ecdh_sha2_nistp256() -> (name: String)
    ensures
        name@ == "ecdh-sha2-nistp256"@,
{
    russh::kex::ECDH_SHA2_NISTP256.as_ref().to_string()
}

/// The name of `russh::kex::ECDH_SHA2_NISTP384`.
#[verifier::external_body]
fn ecdh_sha2_nistp384() -> (name: String)
    ensures
        name@ == "ecdh-sha2-nistp384"@,
{
    russh::kex::ECDH_SHA2_NISTP384.as_ref().to_string()
}

/// The name of `russh::kex::ECDH_SHA2_NISTP521`.
#[verifier::external_body]
fn ecdh_sha2_nistp521() -> (name: String)
    ensures
        name@ == "ecdh-sha2-nistp521"@,
{
    russh::kex::ECDH_SHA2_NISTP521.as_ref().to_string()
}

/// The inactivity timeout of `russh::client::Config::default()`, in whole
/// seconds: there is none.
#[verifier::external_body]
fn default_inactivity_timeout_secs() -> (timeout: Option<u64>)
    ensures
        timeout is None,
{
    russh::client::Config::default().inactivity_timeout.map(|timeout| timeout.as_secs())
}

/// Whether `name` is among `names`.
fn names_contain(names: &Vec<String>, name: &String) -> (found: bool)
    ensures
        found == texts(names@).contains(name@),
{
    let mut i: usize = 0;
    while i < names.len()
        invariant
            i <= names.len(),
            forall|j: int| 0 <= j < i ==> texts(names@)[j] != name@,
        decreases names.len() - i,
    {
        if names[i] == *name {
            assert(texts(names@)[i as int] == name@);
            return true;
        }
        i = i + 1;
    }
    false
}

/// Offers the NIST key exchanges that `kex` lacks, after its first two entries
/// and in order of preference.
pub fn offer_nist_ecdh(kex: Vec<String>) -> (offer: Vec<String>)
    requires
        has_room(texts(kex@)),
    ensures
        texts(offer@) == with_nist_ecdh(texts(kex@), 3),
        ({
            let first = texts(kex@);
            let second = if first.contains("ecdh-sha2-nistp256"@) {
                first
            } else {
                first.insert(2, "ecdh-sha2-nistp256"@)
            };
            let third = if second.contains("ecdh-sha2-nistp384"@) {
                second
            } else {
                second.insert(3, "ecdh-sha2-nistp384"@)
            };
            texts(offer@) == if third.contains("ecdh-sha2-nistp521"@) {
                third
            } else {
                third.insert(4, "ecdh-sha2-nistp521"@)
            }
        }),
{
    proof {
        nist_ecdh_put_in_place(texts(kex@));
    }
    let algorithms: [String; 3] = [ecdh_sha2_nistp256(), ecdh_sha2_nistp384(), ecdh_sha2_nistp521()];
    let ghost start = texts(kex@);
    let mut offer = kex;
    let mut offset: usize = 0;
    while offset < 3
        invariant
            offset <= 3,
            has_room(start),
            texts(offer@) == with_nist_ecdh(start, offset as nat),
            forall|i: int| 0 <= i < 3 ==> #[trigger] algorithms@[i]@ == nist_ecdh()[i],
        decreases 3 - offset,
    {
        let ghost before = offer@;
        if !names_contain(&offer, &algorithms[offset]) {
            assert(texts(before).len() == before.len());
            let name = algorithms[offset].clone();
            offer.insert(2 + offset, name);
            assert(texts(offer@) =~= texts(before).insert(2 + offset, name@));
        }
        offset = offset + 1;
    }
    offer
}

/// The configuration of every connection: the default key exchanges with the
/// NIST ones put in after `curve25519`, keepalives, and no inactivity timeout.
pub fn client_config() -> (config: ClientConfig)
    ensures
        texts(config.preferred.kex@) == with_nist_ecdh(default_kex(), 3),
        texts(config.preferred.kex@) == default_kex().take(2) + nist_ecdh() + default_kex().skip(2),
        config.inactivity_timeout_secs is None,
        config.keepalive_interval_secs == Some(KEEPALIVE_INTERVAL_SECS),
        config.keepalive_max == KEEPALIVE_MAX,
        config.preferred.kex@.len() == 11,
        config.preferred.kex@[0]@ == "curve25519-sha256"@,
        config.preferred.kex@[1]@ == "curve25519-sha256@libssh.org"@,
        config.preferred.kex@[2]@ == "ecdh-sha2-nistp256"@,
        config.preferred.kex@[3]@ == "ecdh-sha2-nistp384"@,
        config.preferred.kex@[4]@ == "ecdh-sha2-nistp521"@,
        config.preferred.kex@[5]@ == "diffie-hellman-group16-sha512"@,
        config.preferred.kex@[6]@ == "diffie-hellman-group14-sha256"@,
        config.preferred.kex@[7]@ == "ext-info-c"@,
        config.preferred.kex@[8]@ == "ext-info-s"@,
        config.preferred.kex@[9]@ == "kex-strict-c-v00@openssh.com"@,
        config.preferred.kex@[10]@ == "kex-strict-s-v00@openssh.com"@,
        config.keepalive_interval_secs == Some(15u64),
        config.keepalive_max == 3,
{
    proof {
        default_kex_lacks_nist_ecdh();
        nist_ecdh_after_first_two(default_kex());
    }
    let kex = offer_nist_ecdh(default_kex_names());
    proof {
        texts_are_the_names(kex@);
        let offer = texts(kex@);
        assert(offer =~= default_kex().take(2) + nist_ecdh() + default_kex().skip(2));
        assert(offer.len() == 11);
        assert(offer[0] == default_kex()[0] && offer[1] == default_kex()[1]);
        assert(offer[2] == nist_ecdh()[0] && offer[3] == nist_ecdh()[1] && offer[4]
            == nist_ecdh()[2]);
        assert(offer[5] == default_kex()[2] && offer[6] == default_kex()[3] && offer[7]
            == default_kex()[4]);
        assert(offer[8] == default_kex()[5] && offer[9] == default_kex()[6] && offer[10]
            == default_kex()[7]);
    }
    ClientConfig {
        preferred: Preferred { kex },
        inactivity_timeout_secs: default_inactivity_timeout_secs(),
        keepalive_interval_secs: Some(KEEPALIVE_INTERVAL_SECS),
        keepalive_max: KEEPALIVE_MAX,
    }
}

/// The texts of names are their characters, one for one and in their order.
pub proof fn texts_are_the_names(names: Seq<String>)
    ensures
        texts(names).len() == names.len(),
        forall|i: int| 0 <= i < names.len() ==> texts(names)[i] == (#[trigger] names[i])@,
{
}

/// Where each NIST key exchange goes. The one on the smallest curve comes third,
/// the next one fourth and the last one fifth, each only where the list does not
/// hold it already. There is room for them exactly when none of those places lies
/// beyond the end of the list.
pub proof fn nist_ecdh_put_in_place(kex: Seq<Seq<char>>)
    ensures
        ({
            let second = if kex.contains("ecdh-sha2-nistp256"@) {
                kex
            } else {
                kex.insert(2, "ecdh-sha2-nistp256"@)
            };
            let third = if second.contains("ecdh-sha2-nistp384"@) {
                second
            } else {
                second.insert(3, "ecdh-sha2-nistp384"@)
            };
            &&& with_nist_ecdh(kex, 3) == if third.contains("ecdh-sha2-nistp521"@) {
                third
            } else {
                third.insert(4, "ecdh-sha2-nistp521"@)
            }
            &&& has_room(kex) == {
                &&& kex.contains("ecdh-sha2-nistp256"@) || kex.len() >= 2
                &&& second.contains("ecdh-sha2-nistp384"@) || second.len() >= 3
                &&& third.contains("ecdh-sha2-nistp521"@) || third.len() >= 4
            }
        }),
{
    reveal_with_fuel(with_nist_ecdh, 4);
    let none = with_nist_ecdh(kex, 0);
    let one = with_nist_ecdh(kex, 1);
    let two = with_nist_ecdh(kex, 2);
    let roomy = {
        &&& none.contains(nist_ecdh()[0]) || none.len() >= 2
        &&& one.contains(nist_ecdh()[1]) || one.len() >= 3
        &&& two.contains(nist_ecdh()[2]) || two.len() >= 4
    };
    if roomy {
        assert forall|offset: nat|
            #![trigger with_nist_ecdh(kex, offset)]
            offset < 3 && !with_nist_ecdh(kex, offset).contains(
                nist_ecdh()[offset as int],
            ) implies 2 + offset <= with_nist_ecdh(kex, offset).len() by {
            assert(offset == 0 || offset == 1 || offset == 2);
        }
    }
    assert(has_room(kex) == roomy);
}

/// A list with at least four entries has room for the NIST key exchanges,
/// whichever of them it holds.
pub proof fn four_entries_are_room_enough(kex: Seq<Seq<char>>)
    requires
        kex.len() >= 4,
    ensures
        has_room(kex),
{
    nist_ecdh_put_in_place(kex);
}

/// No two of the NIST key exchanges are the same.
proof fn nist_ecdh_distinct()
    ensures
        nist_ecdh().no_duplicates(),
{
    reveal_strlit("ecdh-sha2-nistp256");
    reveal_strlit("ecdh-sha2-nistp384");
    reveal_strlit("ecdh-sha2-nistp521");
    assert("ecdh-sha2-nistp256"@[15] == '2');
    assert("ecdh-sha2-nistp384"@[15] == '3');
    assert("ecdh-sha2-nistp521"@[15] == '5');
}

/// None of the NIST key exchanges is preferred by default.
proof fn default_kex_lacks_nist_ecdh()
    ensures
        forall|i: int| 0 <= i < 3 ==> !default_kex().contains(#[trigger] nist_ecdh()[i]),
{
    reveal_strlit("ecdh-sha2-nistp256");
    reveal_strlit("ecdh-sha2-nistp384");
    reveal_strlit("ecdh-sha2-nistp521");
    reveal_strlit("curve25519-sha256");
    reveal_strlit("curve25519-sha256@libssh.org");
    reveal_strlit("diffie-hellman-group16-sha512");
    reveal_strlit("diffie-hellman-group14-sha256");
    reveal_strlit("ext-info-c");
    reveal_strlit("ext-info-s");
    reveal_strlit("kex-strict-c-v00@openssh.com");
    reveal_strlit("kex-strict-s-v00@openssh.com");
    assert forall|i: int, j: int| 0 <= i < 3 && 0 <= j < 8 implies #[trigger] nist_ecdh()[i]
        != #[trigger] default_kex()[j] by {
        assert(nist_ecdh()[i].len() == 18);
        assert(default_kex()[j].len() != 18);
    }
}

/// A list of at least two entries that holds none of the NIST key exchanges
/// gets all three of them directly after its first two entries, and is
/// otherwise unchanged.
pub proof fn nist_ecdh_after_first_two(kex: Seq<Seq<char>>)
    requires
        kex.len() >= 2,
        forall|i: int| 0 <= i < 3 ==> !kex.contains(#[trigger] nist_ecdh()[i]),
    ensures
        has_room(kex),
        with_nist_ecdh(kex, 3) == kex.take(2) + nist_ecdh() + kex.skip(2),
{
    nist_ecdh_distinct();
    let names = nist_ecdh();
    assert forall|count: nat| count <= 3 implies #[trigger] with_nist_ecdh(kex, count) == kex.take(2)
        + names.take(count as int) + kex.skip(2) by {
        lemma_first_nist_ecdh(kex, count);
    }
    assert forall|offset: nat| offset < 3 implies 2 + offset <= (#[trigger] with_nist_ecdh(
        kex,
        offset,
    )).len() by {}
    assert(names.take(3) =~= names);
}

proof fn lemma_first_nist_ecdh(kex: Seq<Seq<char>>, count: nat)
    requires
        kex.len() >= 2,
        count <= 3,
        forall|i: int| 0 <= i < 3 ==> !kex.contains(#[trigger] nist_ecdh()[i]),
    ensures
        with_nist_ecdh(kex, count) == kex.take(2) + nist_ecdh().take(count as int) + kex.skip(2),
    decreases count,
{
    let names = nist_ecdh();
    if count == 0 {
        assert(kex.take(2) + names.take(0) + kex.skip(2) =~= kex);
    } else {
        let before = with_nist_ecdh(kex, (count - 1) as nat);
        let name = names[count - 1];
        lemma_first_nist_ecdh(kex, (count - 1) as nat);
        nist_ecdh_distinct();
        assert forall|i: int| 0 <= i < before.len() implies before[i] != name by {
            if i < 2 {
                assert(before[i] == kex[i]);
                assert(kex.contains(kex[i]));
            } else if i < 2 + (count - 1) {
                assert(before[i] == names[i - 2]);
            } else {
                assert(before[i] == kex[i - (count - 1)]);
                assert(kex.contains(kex[i - (count - 1)]));
            }
        }
        assert(with_nist_ecdh(kex, count) =~= kex.take(2) + names.take(count as int) + kex.skip(2));
    }
}

/// The entries of `kex` that are no NIST key exchanges, in their order.
pub open spec fn other_than_nist(kex: Seq<Seq<char>>) -> Seq<Seq<char>> {
    kex.filter(|name: Seq<char>| !nist_ecdh().contains(name))
}

/// Offering the NIST key exchanges makes each of them available, takes nothing
/// away, adds nothing else, and keeps the first two entries first and all other
/// entries in their order.
pub proof fn nist_ecdh_offered(kex: Seq<Seq<char>>)
    requires
        has_room(kex),
    ensures
        forall|name: Seq<char>| #[trigger]
            with_nist_ecdh(kex, 3).contains(name) <==> kex.contains(name) || nist_ecdh().contains(
                name,
            ),
        kex.len() >= 2 ==> with_nist_ecdh(kex, 3).take(2) == kex.take(2),
        other_than_nist(with_nist_ecdh(kex, 3)) == other_than_nist(kex),
{
    lemma_nist_ecdh_offered(kex, 3);
    assert(nist_ecdh().take(3) =~= nist_ecdh());
}

proof fn lemma_nist_ecdh_offered(kex: Seq<Seq<char>>, count: nat)
    requires
        count <= 3,
        has_room(kex),
    ensures
        forall|name: Seq<char>| #[trigger]
            with_nist_ecdh(kex, count).contains(name) <==> kex.contains(name)
                || nist_ecdh().take(count as int).contains(name),
        kex.len() >= 2 ==> with_nist_ecdh(kex, count).len() >= 2 && with_nist_ecdh(kex, count).take(
            2,
        ) == kex.take(2),
        other_than_nist(with_nist_ecdh(kex, count)) == other_than_nist(kex),
    decreases count,
{
    if count > 0 {
        let before = with_nist_ecdh(kex, (count - 1) as nat);
        let after = with_nist_ecdh(kex, count);
        let added = nist_ecdh()[count - 1];
        lemma_nist_ecdh_offered(kex, (count - 1) as nat);
        if before.contains(added) {
            assert(after == before);
        } else {
            assert(2 + (count - 1) <= before.len());
            assert(after == before.insert(2 + (count - 1), added));
            lemma_insert_contains(before, added, 2 + (count - 1));
            lemma_insert_filter(before, added, 2 + (count - 1));
            assert(after.take(2) =~= before.take(2));
        }
        assert(nist_ecdh().take(count as int) =~= nist_ecdh().take(count - 1).push(added));
        assert forall|name: Seq<char>|
            nist_ecdh().take(count as int).contains(name) <==> #[trigger] nist_ecdh().take(
                count - 1,
            ).contains(name) || name == added by {
            lemma_push_contains(nist_ecdh().take(count - 1), added, name);
        }
        assert forall|name: Seq<char>| #[trigger]
            after.contains(name) <==> kex.contains(name) || nist_ecdh().take(
                count as int,
            ).contains(name) by {
            assert(before.contains(name) <==> kex.contains(name) || nist_ecdh().take(
                count - 1,
            ).contains(name));
        }
    } else {
        assert(nist_ecdh().take(0) =~= Seq::<Seq<char>>::empty());
    }
}

proof fn lemma_push_contains(kex: Seq<Seq<char>>, added: Seq<char>, name: Seq<char>)
    ensures
        kex.push(added).contains(name) <==> kex.contains(name) || name == added,
{
    if kex.contains(name) {
        assert(kex.push(added)[kex.index_of(name)] == name);
    }
    assert(kex.push(added)[kex.len() as int] == added);
}

proof fn lemma_insert_contains(kex: Seq<Seq<char>>, added: Seq<char>, place: int)
    requires
        0 <= place <= kex.len(),
    ensures
        forall|name: Seq<char>| #[trigger]
            kex.insert(place, added).contains(name) <==> kex.contains(name) || name == added,
{
    let after = kex.insert(place, added);
    assert forall|name: Seq<char>| #[trigger]
        after.contains(name) <==> kex.contains(name) || name == added by {
        if kex.contains(name) {
            let i = kex.index_of(name);
            assert(after[if i < place { i } else { i + 1 }] == name);
        }
        assert(after[place] == added);
        if after.contains(name) && name != added {
            let i = after.index_of(name);
            assert(kex[if i < place { i } else { i - 1 }] == name);
        }
    }
}

proof fn lemma_insert_filter(kex: Seq<Seq<char>>, added: Seq<char>, place: int)
    requires
        0 <= place <= kex.len(),
        nist_ecdh().contains(added),
    ensures
        other_than_nist(kex.insert(place, added)) == other_than_nist(kex),
{
    let kept = |name: Seq<char>| !nist_ecdh().contains(name);
    let head = kex.take(place);
    let tail = kex.skip(place);
    assert(kex.insert(place, added) =~= head.push(added) + tail);
    assert(kex =~= head + tail);
    Seq::filter_distributes_over_add(head, tail, kept);
    Seq::filter_distributes_over_add(head.push(added), tail, kept);
    assert(head.push(added).filter(kept) == head.filter(kept)) by {
        reveal(Seq::filter);
        assert(head.push(added).drop_last() =~= head);
    }
}

/// Whether `name` ends in `sha1`.
pub open spec fn uses_sha1(name: Seq<char>) -> bool {
    name.len() >= 4 && name.skip(name.len() - 4) == "sha1"@
}

/// No key exchange that uses SHA-1 is offered to a server.
pub proof fn no_sha1_offered()
    ensures
        forall|i: int|
            0 <= i < with_nist_ecdh(default_kex(), 3).len() ==> !uses_sha1(
                #[trigger] with_nist_ecdh(default_kex(), 3)[i],
            ),
{
    default_kex_lacks_nist_ecdh();
    nist_ecdh_after_first_two(default_kex());
    reveal_strlit("sha1");
    reveal_strlit("ecdh-sha2-nistp256");
    reveal_strlit("ecdh-sha2-nistp384");
    reveal_strlit("ecdh-sha2-nistp521");
    reveal_strlit("curve25519-sha256");
    reveal_strlit("curve25519-sha256@libssh.org");
    reveal_strlit("diffie-hellman-group16-sha512");
    reveal_strlit("diffie-hellman-group14-sha256");
    reveal_strlit("ext-info-c");
    reveal_strlit("ext-info-s");
    reveal_strlit("kex-strict-c-v00@openssh.com");
    reveal_strlit("kex-strict-s-v00@openssh.com");
    let offer = with_nist_ecdh(default_kex(), 3);
    assert forall|i: int| 0 <= i < offer.len() implies !uses_sha1(#[trigger] offer[i]) by {
        let name = offer[i];
        assert(name[name.len() - 2] != 'a');
        if name.len() >= 4 {
            assert(name.skip(name.len() - 4)[2] == name[name.len() - 2]);
            assert("sha1"@[2] == 'a');
        }
    }
}

} // verus!
