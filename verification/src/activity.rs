//! The activity feed: normalising entries, folding consecutive duplicates
//! into repeat counts, and keeping the feed within its size limit.
use vstd::prelude::*;
use vstd::string::StringSliceAdditionalSpecFns;
use vstd::utf8::{decode_utf8, encode_utf8, encode_utf8_decode_utf8, is_char_boundary};

use crate::runtime::ActivityEntry;
use crate::text::{blank, is_blank, join, join_texts, owned, same, split_words, views, words};

verus! {

/// The whitespace-collapsed form of a message.
pub open spec fn compact(m: Seq<char>) -> Seq<char> {
    join(words(m), " "@)
}

/// Whether the short form of a message is defined: a compacted message over
/// 180 bytes is cut at byte 177, which must fall between characters.
pub open spec fn densify_ok(m: Seq<char>) -> bool {
    let b = encode_utf8(compact(m));
    b.len() > 180 ==> is_char_boundary(b, 177)
}

/// The short form of a message: whitespace collapsed, and cut to 177 bytes
/// plus `...` when longer than 180 bytes.
pub open spec fn densified(m: Seq<char>) -> Seq<char> {
    let c = compact(m);
    let b = encode_utf8(c);
    if b.len() > 180 {
        decode_utf8(b.subrange(0, 177)) + "..."@
    } else {
        c
    }
}

/// Whether `densify_message` is defined on a message.
pub fn densify_defined(message: &str) -> (b: bool)
    ensures
        b == densify_ok(message@),
{
    let ws = split_words(message);
    let c = join_texts(&ws, " ");
    let s = c.as_str();
    if s.as_bytes().len() > 180 {
        s.is_char_boundary(177)
    } else {
        true
    }
}

/// The short form of a message.
pub fn densify_message(message: &str) -> (r: String)
    requires
        densify_ok(message@),
    ensures
        r@ == densified(message@),
{
    let ws = split_words(message);
    let c = join_texts(&ws, " ");
    let s = c.as_str();
    if s.as_bytes().len() > 180 {
        let (head, _tail) = s.split_at(177);
        proof {
            encode_utf8_decode_utf8(head@);
        }
        let mut r = head.to_owned();
        r.append("...");
        r
    } else {
        c
    }
}

/// The fields that decide whether two entries say the same thing.
pub open spec fn same_content(l: ActivityEntry, r: ActivityEntry) -> bool {
    &&& l.source@ == r.source@
    &&& l.level@ == r.level@
    &&& l.channel@ == r.channel@
    &&& l.worker_name@ == r.worker_name@
    &&& l.message@ == r.message@
    &&& l.dense_message@ == r.dense_message@
    &&& l.full_message@ == r.full_message@
    &&& views(l.tags@) == views(r.tags@)
}

/// The entry a duplicate folds into: the newer sequence number and time,
/// and the repeat counts added up (saturating).
pub open spec fn merged(target: ActivityEntry, incoming: ActivityEntry) -> ActivityEntry {
    ActivityEntry {
        seq: incoming.seq,
        timestamp: incoming.timestamp,
        repeat_count: sat_add(
            target.repeat_count,
            if incoming.repeat_count > 1 {
                incoming.repeat_count
            } else {
                1
            },
        ),
        ..target
    }
}

pub open spec fn sat_add(a: u64, b: u64) -> u64 {
    if a + b > u64::MAX {
        u64::MAX
    } else {
        (a + b) as u64
    }
}

/// The feed after one entry arrives, before the size limit is applied.
pub open spec fn appended(buffer: Seq<ActivityEntry>, entry: ActivityEntry) -> Seq<ActivityEntry> {
    if buffer.len() > 0 && same_content(buffer.last(), entry) {
        buffer.update(buffer.len() - 1, merged(buffer.last(), entry))
    } else {
        buffer.push(entry)
    }
}

/// The newest `limit` entries.
pub open spec fn capped(s: Seq<ActivityEntry>, limit: nat) -> Seq<ActivityEntry> {
    if s.len() > limit {
        s.subrange(s.len() - limit, s.len() as int)
    } else {
        s
    }
}

pub open spec fn pushed(buffer: Seq<ActivityEntry>, entry: ActivityEntry, limit: nat) -> Seq<ActivityEntry> {
    capped(appended(buffer, entry), limit)
}

/// No two neighbouring entries say the same thing.
pub open spec fn folded(s: Seq<ActivityEntry>) -> bool {
    forall|i: int| 0 <= i < s.len() - 1 ==> !same_content(#[trigger] s[i], s[i + 1])
}

fn same_tags(a: &Vec<String>, b: &Vec<String>) -> (r: bool)
    ensures
        r == (views(a@) == views(b@)),
{
    if a.len() != b.len() {
        assert(views(a@).len() != views(b@).len());
        return false;
    }
    let mut i: usize = 0;
    while i < a.len()
        invariant
            a.len() == b.len(),
            i <= a.len(),
            forall|j: int| 0 <= j < i ==> a@[j]@ == b@[j]@,
        decreases a.len() - i,
    {
        if !same(a[i].as_str(), b[i].as_str()) {
            assert(views(a@)[i as int] != views(b@)[i as int]);
            return false;
        }
        i = i + 1;
    }
    assert(views(a@) =~= views(b@));
    true
}

/// Whether two entries say the same thing and may fold into one.
pub fn activity_entries_mergeable(left: &ActivityEntry, right: &ActivityEntry) -> (r: bool)
    ensures
        r == same_content(*left, *right),
{
    same(left.source.as_str(), right.source.as_str()) && same(left.level.as_str(), right.level.as_str())
        && same(left.channel.as_str(), right.channel.as_str()) && same(
        left.worker_name.as_str(),
        right.worker_name.as_str(),
    ) && same(left.message.as_str(), right.message.as_str()) && same(
        left.dense_message.as_str(),
        right.dense_message.as_str(),
    ) && same(left.full_message.as_str(), right.full_message.as_str()) && same_tags(
        &left.tags,
        &right.tags,
    )
}

/// Folds a duplicate into the entry it repeats.
pub fn merge_activity_entry(target: &mut ActivityEntry, incoming: &ActivityEntry)
    ensures
        *final(target) == merged(*old(target), *incoming),
{
    target.seq = incoming.seq;
    target.timestamp = incoming.timestamp.clone();
    let add = if incoming.repeat_count > 1 {
        incoming.repeat_count
    } else {
        1
    };
    target.repeat_count = target.repeat_count.saturating_add(add);
}

/// Adds an entry to the feed: a repeat of the newest entry folds into it,
/// anything else is appended; then only the newest `limit` entries stay.
pub fn push_activity_entry(buffer: &mut Vec<ActivityEntry>, entry: ActivityEntry, limit: usize)
    ensures
        final(buffer)@ == pushed(old(buffer)@, entry, limit as nat),
        final(buffer)@.len() <= limit,
{
    let n = buffer.len();
    if n > 0 && activity_entries_mergeable(&buffer[n - 1], &entry) {
        let mut last = buffer.pop().unwrap();
        merge_activity_entry(&mut last, &entry);
        buffer.push(last);
        assert(buffer@ =~= appended(old(buffer)@, entry));
    } else {
        buffer.push(entry);
    }
    if buffer.len() > limit {
        let drain = buffer.len() - limit;
        let kept = buffer.split_off(drain);
        *buffer = kept;
    }
}

// ---------------------------------------------------------------------------
// Normalisation
// ---------------------------------------------------------------------------

/// The message of an entry after normalisation.
pub open spec fn normal_message(e: ActivityEntry) -> Seq<char> {
    let m = if blank(e.message@) && !blank(e.full_message@) {
        e.full_message@
    } else {
        e.message@
    };
    if blank(m) {
        "no message"@
    } else {
        m
    }
}

/// Normalisation is defined on the entry: its short form can be computed
/// when one has to be.
pub open spec fn normalizable(e: ActivityEntry) -> bool {
    blank(e.dense_message@) ==> densify_ok(normal_message(e))
}

/// Whether an entry can be normalised (see `normalizable`).
pub fn entry_normalizable(entry: &ActivityEntry) -> (r: bool)
    ensures
        r == normalizable(*entry),
{
    if !is_blank(entry.dense_message.as_str()) {
        return true;
    }
    let m = if is_blank(entry.message.as_str()) && !is_blank(entry.full_message.as_str()) {
        entry.full_message.as_str()
    } else {
        entry.message.as_str()
    };
    if is_blank(m) {
        densify_defined("no message")
    } else {
        densify_defined(m)
    }
}

pub open spec fn or_default(v: Seq<char>, d: Seq<char>) -> Seq<char> {
    if blank(v) {
        d
    } else {
        v
    }
}

/// The facts that normalisation establishes, given the entry and counter before.
pub open spec fn normalized(
    before: ActivityEntry,
    next_before: u64,
    now: Seq<char>,
    after: ActivityEntry,
    next_after: u64,
) -> bool {
    let seq = if before.seq == 0 {
        next_before
    } else {
        before.seq
    };
    &&& after.seq == seq
    &&& next_after == if next_before >= sat_add(seq, 1) {
        next_before
    } else {
        sat_add(seq, 1)
    }
    &&& after.repeat_count == if before.repeat_count == 0 {
        1
    } else {
        before.repeat_count
    }
    &&& after.timestamp@ == or_default(before.timestamp@, now)
    &&& after.source@ == or_default(before.source@, "commander"@)
    &&& after.level@ == or_default(before.level@, "info"@)
    &&& after.channel@ == or_default(before.channel@, "status"@)
    &&& after.message@ == normal_message(before)
    &&& after.dense_message@ == if blank(before.dense_message@) {
        densified(normal_message(before))
    } else {
        before.dense_message@
    }
    &&& after.full_message@ == if blank(before.full_message@) {
        normal_message(before)
    } else {
        before.full_message@
    }
    &&& after.worker_name == before.worker_name
    &&& after.tags == before.tags
}

/// Fills the missing parts of an entry (sequence number, repeat count, time
/// `now`, source, level, channel, messages) and advances the counter past it.
pub fn normalize_activity_entry_at(entry: &mut ActivityEntry, next_seq: &mut u64, now: &str)
    requires
        normalizable(*old(entry)),
    ensures
        normalized(*old(entry), *old(next_seq), now@, *final(entry), *final(next_seq)),
{
    if entry.seq == 0 {
        entry.seq = *next_seq;
    }
    let bumped = entry.seq.saturating_add(1);
    if *next_seq < bumped {
        *next_seq = bumped;
    }
    if entry.repeat_count == 0 {
        entry.repeat_count = 1;
    }
    if is_blank(entry.timestamp.as_str()) {
        entry.timestamp = owned(now);
    }
    if is_blank(entry.source.as_str()) {
        entry.source = owned("commander");
    }
    if is_blank(entry.level.as_str()) {
        entry.level = owned("info");
    }
    if is_blank(entry.channel.as_str()) {
        entry.channel = owned("status");
    }
    if is_blank(entry.message.as_str()) && !is_blank(entry.full_message.as_str()) {
        entry.message = entry.full_message.clone();
    }
    if is_blank(entry.message.as_str()) {
        entry.message = owned("no message");
    }
    if is_blank(entry.dense_message.as_str()) {
        entry.dense_message = densify_message(entry.message.as_str());
    }
    if is_blank(entry.full_message.as_str()) {
        entry.full_message = entry.message.clone();
    }
}

/// Fills the missing parts of an entry, stamping a missing time with the
/// local clock.
pub fn normalize_activity_entry(entry: &mut ActivityEntry, next_seq: &mut u64)
    requires
        normalizable(*old(entry)),
    ensures
        exists|now: Seq<char>|
            normalized(*old(entry), *old(next_seq), now, *final(entry), *final(next_seq)),
{
    let now = crate::runtime::now_string();
    normalize_activity_entry_at(entry, next_seq, now.as_str());
}

// ---------------------------------------------------------------------------
// Laws
// ---------------------------------------------------------------------------

/// Adding an entry never leaves two neighbouring entries that say the same
/// thing, when there were none before.
pub proof fn lemma_push_keeps_folded(buffer: Seq<ActivityEntry>, entry: ActivityEntry, limit: nat)
    requires
        folded(buffer),
    ensures
        folded(pushed(buffer, entry, limit)),
{
    let a = appended(buffer, entry);
    assert(folded(a)) by {
        assert forall|i: int| 0 <= i < a.len() - 1 implies !same_content(#[trigger] a[i], a[i + 1]) by {
            if buffer.len() > 0 && same_content(buffer.last(), entry) {
                assert(a[i] == buffer[i] || i == buffer.len() - 1);
                if i + 1 == buffer.len() - 1 {
                    assert(a[i] == buffer[i]);
                    assert(!same_content(buffer[i], buffer[i + 1]));
                }
            } else {
                if i < buffer.len() - 1 {
                    assert(a[i] == buffer[i] && a[i + 1] == buffer[i + 1]);
                }
            }
        }
    }
    let p = capped(a, limit);
    if a.len() > limit {
        let k = a.len() - limit;
        assert forall|i: int| 0 <= i < p.len() - 1 implies !same_content(#[trigger] p[i], p[i + 1]) by {
            assert(p[i] == a[i + k] && p[i + 1] == a[i + k + 1]);
        }
    }
}

/// The newest entry of the feed is the one just added (or the entry it
/// folded into, which then carries its number, time and content).
pub proof fn lemma_push_shows_newest(buffer: Seq<ActivityEntry>, entry: ActivityEntry, limit: nat)
    requires
        limit > 0,
    ensures
        pushed(buffer, entry, limit).len() > 0,
        same_content(pushed(buffer, entry, limit).last(), entry),
        pushed(buffer, entry, limit).last().seq == entry.seq,
        pushed(buffer, entry, limit).last().timestamp == entry.timestamp,
{
    let a = appended(buffer, entry);
    assert(a.len() > 0);
    assert(a.last().seq == entry.seq);
    let p = capped(a, limit);
    assert(p.last() == a.last());
    assert(same_content(a.last(), entry));
}

// ---------------------------------------------------------------------------
// Loading a feed
// ---------------------------------------------------------------------------

/// Every entry of a saved feed can be normalised.
pub open spec fn all_normalizable(entries: Seq<ActivityEntry>) -> bool {
    forall|i: int| 0 <= i < entries.len() ==> normalizable(#[trigger] entries[i])
}

/// What rebuilding a feed from saved entries `es` gives (`out`, with `next`
/// the next free sequence number): nothing and 1 for no entries; otherwise
/// the feed of all but the last entry, with the last entry normalised
/// against that feed's counter (missing times become `now`) and then pushed.
/// Normalising fixes every field of the entry (texts by their characters),
/// so this pins the feed and the counter.
pub open spec fn compacts(
    es: Seq<ActivityEntry>,
    limit: nat,
    now: Seq<char>,
    out: Seq<ActivityEntry>,
    next: u64,
) -> bool
    decreases es.len(),
{
    if es.len() == 0 {
        out.len() == 0 && next == 1
    } else {
        exists|b: Seq<ActivityEntry>, n: u64, e: ActivityEntry|
            #![trigger normalized(es.last(), n, now, e, next), pushed(b, e, limit)]
            compacts(es.drop_last(), limit, now, b, n) && normalized(es.last(), n, now, e, next)
                && out == pushed(b, e, limit)
    }
}

/// One more saved entry: normalised against the counter of the feed so far,
/// then pushed.
pub proof fn lemma_compacts_step(
    es: Seq<ActivityEntry>,
    limit: nat,
    now: Seq<char>,
    b: Seq<ActivityEntry>,
    n: u64,
    e: ActivityEntry,
    next: u64,
)
    requires
        es.len() > 0,
        compacts(es.drop_last(), limit, now, b, n),
        normalized(es.last(), n, now, e, next),
    ensures
        compacts(es, limit, now, pushed(b, e, limit), next),
{
}

/// Two entries that agree on every field (texts by their characters).
pub open spec fn same_entry(a: ActivityEntry, b: ActivityEntry) -> bool {
    &&& a.seq == b.seq
    &&& a.repeat_count == b.repeat_count
    &&& a.timestamp@ == b.timestamp@
    &&& same_content(a, b)
}

/// Two feeds that agree entry by entry.
pub open spec fn same_feed(a: Seq<ActivityEntry>, b: Seq<ActivityEntry>) -> bool {
    a.len() == b.len() && forall|i: int| 0 <= i < a.len() ==> same_entry(#[trigger] a[i], b[i])
}

/// Pushing agreeing entries onto agreeing feeds gives agreeing feeds.
proof fn lemma_pushed_same(b1: Seq<ActivityEntry>, b2: Seq<ActivityEntry>, e1: ActivityEntry, e2: ActivityEntry, limit: nat)
    requires
        same_feed(b1, b2),
        same_entry(e1, e2),
    ensures
        same_feed(pushed(b1, e1, limit), pushed(b2, e2, limit)),
{
    let a1 = appended(b1, e1);
    let a2 = appended(b2, e2);
    if b1.len() > 0 {
        assert(same_entry(b1[b1.len() - 1], b2[b2.len() - 1]));
    }
    assert(same_feed(a1, a2)) by {
        assert forall|i: int| 0 <= i < a1.len() implies same_entry(#[trigger] a1[i], a2[i]) by {
            if i < b1.len() {
                assert(same_entry(b1[i], b2[i]));
            }
        }
    }
    let p1 = capped(a1, limit);
    let p2 = capped(a2, limit);
    assert forall|i: int| 0 <= i < p1.len() implies same_entry(#[trigger] p1[i], p2[i]) by {
        if a1.len() > limit {
            assert(same_entry(a1[i + a1.len() - limit], a2[i + a2.len() - limit]));
        } else {
            assert(same_entry(a1[i], a2[i]));
        }
    }
}

/// Rebuilding a feed has one outcome: any two results have the same next
/// number and agree entry by entry.
pub proof fn lemma_compacts_unique(
    es: Seq<ActivityEntry>,
    limit: nat,
    now: Seq<char>,
    o1: Seq<ActivityEntry>,
    n1: u64,
    o2: Seq<ActivityEntry>,
    n2: u64,
)
    requires
        compacts(es, limit, now, o1, n1),
        compacts(es, limit, now, o2, n2),
    ensures
        n1 == n2,
        same_feed(o1, o2),
    decreases es.len(),
{
    if es.len() > 0 {
        let (b1, m1, e1) = choose|b: Seq<ActivityEntry>, n: u64, e: ActivityEntry|
            #![trigger normalized(es.last(), n, now, e, n1), pushed(b, e, limit)]
            compacts(es.drop_last(), limit, now, b, n) && normalized(es.last(), n, now, e, n1) && o1
                == pushed(b, e, limit);
        let (b2, m2, e2) = choose|b: Seq<ActivityEntry>, n: u64, e: ActivityEntry|
            #![trigger normalized(es.last(), n, now, e, n2), pushed(b, e, limit)]
            compacts(es.drop_last(), limit, now, b, n) && normalized(es.last(), n, now, e, n2) && o2
                == pushed(b, e, limit);
        lemma_compacts_unique(es.drop_last(), limit, now, b1, m1, b2, m2);
        assert(same_entry(e1, e2));
        lemma_pushed_same(b1, b2, e1, e2, limit);
    }
}

/// Rebuilds the feed from saved entries: each is normalised (missing times
/// become `now`), numbered from 1 on when unnumbered, and added in order.
/// Returns the feed and the next free sequence number.
pub fn compact_activity(entries: Vec<ActivityEntry>, limit: usize, now: &str) -> (r: (
    Vec<ActivityEntry>,
    u64,
))
    requires
        all_normalizable(entries@),
    ensures
        compacts(entries@, limit as nat, now@, r.0@, r.1),
        r.0@.len() <= limit,
        folded(r.0@),
        r.1 >= 1,
{
    let ghost all = entries@;
    let ghost mut n: int = 0;
    let mut compacted: Vec<ActivityEntry> = Vec::new();
    let mut next_seq: u64 = 1;
    let mut rest = entries;
    assert(all.take(0) =~= Seq::<ActivityEntry>::empty());
    while rest.len() > 0
        invariant
            0 <= n <= all.len(),
            rest@ == all.skip(n),
            all_normalizable(rest@),
            compacts(all.take(n), limit as nat, now@, compacted@, next_seq),
            compacted@.len() <= limit,
            folded(compacted@),
            next_seq >= 1,
        decreases rest.len(),
    {
        let ghost before = rest@;
        let ghost buf = compacted@;
        let ghost counter = next_seq;
        let mut entry = rest.remove(0);
        let ghost raw = entry;
        assert(raw == all[n]);
        assert(normalizable(before[0]));
        assert forall|i: int| 0 <= i < rest@.len() implies normalizable(#[trigger] rest@[i]) by {
            assert(rest@[i] == before[i + 1]);
        }
        normalize_activity_entry_at(&mut entry, &mut next_seq, now);
        proof {
            lemma_push_keeps_folded(compacted@, entry, limit as nat);
        }
        let ghost normed = entry;
        push_activity_entry(&mut compacted, entry, limit);
        proof {
            let t = all.take(n + 1);
            assert(t.drop_last() =~= all.take(n));
            assert(t.last() == raw);
            lemma_compacts_step(t, limit as nat, now@, buf, counter, normed, next_seq);
            n = n + 1;
        }
    }
    assert(all.take(n) =~= all);
    (compacted, next_seq)
}

} // verus!
