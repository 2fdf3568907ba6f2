//! Bus topic names: the broadcast topic, per-frame barrier topics and
//! per-consumer registration topics, all as raw bytes.
use vstd::prelude::*;

verus! {

/// The ASCII decimal digits of `n`, most significant first, without leading zeros.
pub open spec fn decimal(n: nat) -> Seq<u8>
    decreases n,
{
    if n < 10 {
        seq![(48 + n) as u8]
    } else {
        decimal(n / 10).push((48 + n % 10) as u8)
    }
}

/// The upper-case ASCII hex digit for `d < 16`.
pub open spec fn hex_digit(d: nat) -> u8 {
    if d < 10 {
        (48 + d) as u8
    } else {
        (55 + d) as u8
    }
}

/// The lowest `k` hex digits of `v`, most significant first, zero padded.
pub open spec fn hex_digits(v: nat, k: nat) -> Seq<u8>
    decreases k,
{
    if k == 0 {
        Seq::empty()
    } else {
        hex_digits(v / 16, (k - 1) as nat).push(hex_digit(v % 16))
    }
}

/// `render/`: the topic that carries broadcast draw and done traffic.
pub open spec fn render_prefix() -> Seq<u8> {
    seq![114u8, 101u8, 110u8, 100u8, 101u8, 114u8, 47u8]
}

/// `frame/`
pub open spec fn frame_word() -> Seq<u8> {
    seq![102u8, 114u8, 97u8, 109u8, 101u8, 47u8]
}

/// `render/frame/<n>/`: the barrier topic of frame `n`.
pub open spec fn frame_topic_spec(n: nat) -> Seq<u8> {
    render_prefix() + frame_word() + decimal(n) + seq![47u8]
}

/// `@<16 upper-case hex digits>/`: the registration topic of a consumer.
pub open spec fn instance_topic_spec(id: nat) -> Seq<u8> {
    seq![64u8] + hex_digits(id, 16) + seq![47u8]
}

/// Whether `t` is a registration topic of some consumer.
pub open spec fn is_instance_topic(t: Seq<u8>) -> bool {
    exists|id: u64| t == #[trigger] instance_topic_spec(id as nat)
}

/// Whether `t` starts with `render/`.
pub open spec fn has_render_prefix(t: Seq<u8>) -> bool {
    t.len() >= render_prefix().len() && t.subrange(0, render_prefix().len() as int)
        == render_prefix()
}

/// `<n>/`: the suffix by which a subscription names frame `n`'s barrier.
pub open spec fn frame_suffix(n: nat) -> Seq<u8> {
    decimal(n) + seq![47u8]
}

/// Whether `t` ends with `s`.
pub open spec fn ends_with(t: Seq<u8>, s: Seq<u8>) -> bool {
    t.len() >= s.len() && t.subrange(t.len() - s.len(), t.len() as int) == s
}

/// Writes the decimal digits of `n` onto the end of `out`.
pub fn push_decimal(out: &mut Vec<u8>, n: u32)
    ensures
        final(out)@ == old(out)@ + decimal(n as nat),
    decreases n,
{
    if n >= 10 {
        push_decimal(out, n / 10);
    }
    out.push((48 + n % 10) as u8);
    proof {
        assert(decimal(n as nat) == decimal((n / 10) as nat).push((48 + n % 10) as u8)
            || n < 10);
    }
}

/// Writes the lowest `k` hex digits of `v` onto the end of `out`.
fn push_hex(out: &mut Vec<u8>, v: u64, k: u32)
    ensures
        final(out)@ == old(out)@ + hex_digits(v as nat, k as nat),
    decreases k,
{
    if k > 0 {
        push_hex(out, v / 16, k - 1);
        let d = v % 16;
        let c: u8 = if d < 10 {
            (48 + d) as u8
        } else {
            (55 + d) as u8
        };
        out.push(c);
    } else {
        assert(old(out)@ + hex_digits(v as nat, 0) =~= old(out)@);
    }
}

/// The broadcast topic `render/`.
pub fn render_topic() -> (r: Vec<u8>)
    ensures
        r@ == render_prefix(),
{
    let r: Vec<u8> = vec![114u8, 101u8, 110u8, 100u8, 101u8, 114u8, 47u8];
    assert(r@ =~= render_prefix());
    r
}

/// The barrier topic `render/frame/<n>/` of frame `n`.
pub fn frame_topic(n: u32) -> (r: Vec<u8>)
    ensures
        r@ == frame_topic_spec(n as nat),
{
    let mut r = render_topic();
    r.push(102u8);
    r.push(114u8);
    r.push(97u8);
    r.push(109u8);
    r.push(101u8);
    r.push(47u8);
    assert(r@ =~= render_prefix() + frame_word());
    push_decimal(&mut r, n);
    r.push(47u8);
    assert(r@ =~= frame_topic_spec(n as nat));
    r
}

/// The registration topic `@<16 upper-case hex digits>/` of the consumer `id`.
pub fn instance_topic(id: u64) -> (r: Vec<u8>)
    ensures
        r@ == instance_topic_spec(id as nat),
        r@.len() == 18,
{
    let mut r: Vec<u8> = Vec::new();
    r.push(64u8);
    push_hex(&mut r, id, 16);
    r.push(47u8);
    assert(r@ =~= instance_topic_spec(id as nat));
    proof {
        lemma_hex_len(id as nat, 16);
    }
    r
}

proof fn lemma_hex_len(v: nat, k: nat)
    ensures
        hex_digits(v, k).len() == k,
    decreases k,
{
    if k > 0 {
        lemma_hex_len(v / 16, (k - 1) as nat);
    }
}

/// Relies on rand::random: a `u64` drawn from the thread-local generator;
/// nothing is known of its value.
#[verifier::external_body]
fn random_id() -> u64 {
    rand::random::<u64>()
}

/// A registration topic for a freshly drawn consumer id.
pub fn random_instance_topic() -> (r: Vec<u8>)
    ensures
        is_instance_topic(r@),
{
    let id = random_id();
    let r = instance_topic(id);
    assert(r@ == instance_topic_spec(id as nat));
    r
}

/// Whether `t` starts with `render/`.
pub fn is_render_topic(t: &[u8]) -> (r: bool)
    ensures
        r == has_render_prefix(t@),
{
    let p = render_topic();
    if t.len() < p.len() {
        return false;
    }
    let mut i: usize = 0;
    while i < p.len()
        invariant
            p@ == render_prefix(),
            t@.len() >= p@.len(),
            i <= p@.len(),
            forall|j: int| 0 <= j < i ==> t@[j] == p@[j],
        decreases p.len() - i,
    {
        if t[i] != p[i] {
            assert(t@.subrange(0, 7)[i as int] != render_prefix()[i as int]);
            return false;
        }
        i = i + 1;
    }
    assert(t@.subrange(0, 7) =~= render_prefix());
    true
}

/// Whether `t` ends with `<n>/`, the suffix that names frame `n`'s barrier.
pub fn names_frame(t: &[u8], n: u32) -> (r: bool)
    ensures
        r == ends_with(t@, frame_suffix(n as nat)),
{
    let mut s: Vec<u8> = Vec::new();
    push_decimal(&mut s, n);
    s.push(47u8);
    assert(s@ =~= frame_suffix(n as nat));
    if t.len() < s.len() {
        return false;
    }
    let off: usize = t.len() - s.len();
    let mut i: usize = 0;
    while i < s.len()
        invariant
            s@ == frame_suffix(n as nat),
            t@.len() >= s@.len(),
            off == t@.len() - s@.len(),
            t@.len() <= usize::MAX,
            i <= s@.len(),
            forall|j: int| 0 <= j < i ==> t@[off + j] == s@[j],
        decreases s.len() - i,
    {
        if t[off + i] != s[i] {
            assert(t@.subrange(off as int, t@.len() as int)[i as int] != s@[i as int]);
            return false;
        }
        i = i + 1;
    }
    assert(t@.subrange(off as int, t@.len() as int) =~= s@);
    true
}

} // verus!
