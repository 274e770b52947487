use vstd::prelude::*;

verus! {

/// The byte value of a line feed.
pub open spec fn nl() -> u8 {
    10
}

/// The byte value of a carriage return.
pub open spec fn cr() -> u8 {
    13
}

/// The index of the first line feed at or after `i`, or the length of `src`
/// when no line feed follows.
pub open spec fn first_nl_from(src: Seq<u8>, i: int) -> int
    decreases src.len() - i,
{
    if i < 0 || i >= src.len() {
        src.len() as int
    } else if src[i] == nl() {
        i
    } else {
        first_nl_from(src, i + 1)
    }
}

/// What `first_nl_from` yields: the first line feed at or after `i`.
proof fn lemma_first_nl_from(src: Seq<u8>, i: int)
    requires
        0 <= i <= src.len(),
    ensures
        i <= first_nl_from(src, i) <= src.len(),
        forall|j: int| i <= j < first_nl_from(src, i) ==> src[j] != nl(),
        first_nl_from(src, i) < src.len() ==> src[first_nl_from(src, i)] == nl(),
    decreases src.len() - i,
{
    if i < src.len() && src[i] != nl() {
        lemma_first_nl_from(src, i + 1);
    }
}

/// A line as the line-by-line reader hands it on: a line feed at its end is
/// already gone, and a carriage return that stood before that line feed goes
/// too.
pub open spec fn strip_cr(line: Seq<u8>) -> Seq<u8> {
    if line.len() > 0 && line[line.len() - 1] == cr() {
        line.drop_last()
    } else {
        line
    }
}

/// What print mode sends to standard output for the source suffix starting
/// at `i`: each line, terminated or not, is written followed by one line
/// feed. A carriage return is stripped only before a line feed that was
/// there; the final unterminated line keeps its bytes as they are.
pub open spec fn spec_render_from(src: Seq<u8>, i: int) -> Seq<u8>
    decreases src.len() - i
        via spec_render_from_decreases
{
    if i < 0 || i >= src.len() {
        Seq::empty()
    } else {
        let k = first_nl_from(src, i);
        if k >= src.len() {
            src.subrange(i, src.len() as int) + seq![nl()]
        } else {
            strip_cr(src.subrange(i, k)) + seq![nl()] + spec_render_from(src, k + 1)
        }
    }
}

#[via_fn]
proof fn spec_render_from_decreases(src: Seq<u8>, i: int) {
    if 0 <= i < src.len() {
        lemma_first_nl_from(src, i);
    }
}

/// What print mode sends to standard output for the whole source.
pub open spec fn spec_render(src: Seq<u8>) -> Seq<u8> {
    spec_render_from(src, 0)
}

/// Appends `src[from..to]` to `out`.
fn push_range(out: &mut Vec<u8>, src: &Vec<u8>, from: usize, to: usize)
    requires
        from <= to <= src@.len(),
    ensures
        final(out)@ == old(out)@ + src@.subrange(from as int, to as int),
{
    let mut j: usize = from;
    while j < to
        invariant
            from <= j <= to <= src@.len(),
            out@ == old(out)@ + src@.subrange(from as int, j as int),
        decreases to - j,
    {
        out.push(src[j]);
        proof {
            assert(out@ =~= old(out)@ + src@.subrange(from as int, j as int + 1));
        }
        j += 1;
    }
}

/// The concatenation of two byte vectors, in order, unchanged.
pub fn concat_bytes(a: &Vec<u8>, b: &Vec<u8>) -> (r: Vec<u8>)
    ensures
        r@ == a@ + b@,
{
    let mut r: Vec<u8> = Vec::new();
    push_range(&mut r, a, 0, a.len());
    push_range(&mut r, b, 0, b.len());
    proof {
        assert(r@ =~= a@ + b@);
    }
    r
}

/// Renders the source bytes for print mode: line by line, each line followed
/// by one line feed.
#[verifier::loop_isolation(false)]
pub fn render_print(src: &Vec<u8>) -> (r: Vec<u8>)
    ensures
        r@ == spec_render(src@),
{
    let n = src.len();
    let mut out: Vec<u8> = Vec::new();
    let mut i: usize = 0;
    while i < n
        invariant
            i <= n,
            spec_render(src@) == out@ + spec_render_from(src@, i as int),
        decreases n - i,
    {
        let mut k: usize = i;
        while k < n && src[k] != 10
            invariant
                i <= k <= n,
                forall|j: int| i <= j < k ==> src@[j] != nl(),
            decreases n - k,
        {
            k += 1;
        }
        proof {
            lemma_first_nl_from(src@, i as int);
            assert(k as int == first_nl_from(src@, i as int));
        }
        let ghost out_before = out@;
        if k == n {
            push_range(&mut out, src, i, n);
            out.push(10);
            proof {
                assert(out@ =~= out_before + spec_render_from(src@, i as int));
                assert(spec_render_from(src@, n as int) =~= Seq::<u8>::empty());
            }
            i = n;
        } else {
            let end = if k > i && src[k - 1] == 13 {
                k - 1
            } else {
                k
            };
            push_range(&mut out, src, i, end);
            out.push(10);
            proof {
                assert(strip_cr(src@.subrange(i as int, k as int)) =~= src@.subrange(
                    i as int,
                    end as int,
                ));
                assert(out@ =~= out_before + (strip_cr(src@.subrange(i as int, k as int)) + seq![
                    nl(),
                ]));
            }
            i = k + 1;
        }
    }
    out
}

/// Print mode is a pure function of the source bytes: two renderings of the
/// same source are identical.
pub proof fn lemma_print_deterministic(src: Seq<u8>, out1: Seq<u8>, out2: Seq<u8>)
    requires
        out1 == spec_render(src),
        out2 == spec_render(src),
    ensures
        out1 == out2,
{
}

} // verus!
