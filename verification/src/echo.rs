//! Suppression of the shell's echo of the command that the client just
//! typed: the terminal already shows the line, so the copy that comes back
//! from the remote shell is not printed again.

use vstd::prelude::*;

verus! {

/// How the filter treats one chunk of output: the pending echo and the
/// chunk are compared over their common length; when that part is
/// non-empty and equal it is consumed from both, otherwise the pending
/// echo is dropped and the whole chunk is shown. Gives the new pending
/// echo and the bytes to show.
pub open spec fn echo_step(pending: Seq<u8>, chunk: Seq<u8>) -> (Seq<u8>, Seq<u8>) {
    let common = if pending.len() < chunk.len() {
        pending.len()
    } else {
        chunk.len()
    };
    if common > 0 && pending.take(common as int) == chunk.take(common as int) {
        (pending.skip(common as int), chunk.skip(common as int))
    } else {
        (Seq::empty(), chunk)
    }
}

/// Output that starts with the whole pending echo is shown without it, and
/// nothing is left pending.
pub proof fn lemma_echo_in_one_chunk(cmd: Seq<u8>, rest: Seq<u8>)
    requires
        cmd.len() > 0,
    ensures
        echo_step(cmd, cmd + rest) == (Seq::<u8>::empty(), rest),
{
    let chunk = cmd + rest;
    assert(chunk.take(cmd.len() as int) =~= cmd);
    assert(cmd.take(cmd.len() as int) =~= cmd);
    assert(cmd.skip(cmd.len() as int) =~= Seq::<u8>::empty());
    assert(chunk.skip(cmd.len() as int) =~= rest);
}

/// An echo that arrives split over two chunks is suppressed too: the first
/// part shows nothing and leaves the rest pending, the second part is
/// consumed and only what follows it is shown.
pub proof fn lemma_echo_across_chunks(first: Seq<u8>, second: Seq<u8>, rest: Seq<u8>)
    requires
        first.len() > 0,
        second.len() > 0,
    ensures
        echo_step(first + second, first) == (second, Seq::<u8>::empty()),
        echo_step(second, second + rest) == (Seq::<u8>::empty(), rest),
{
    let cmd = first + second;
    assert(cmd.take(first.len() as int) =~= first);
    assert(first.take(first.len() as int) =~= first);
    assert(cmd.skip(first.len() as int) =~= second);
    assert(first.skip(first.len() as int) =~= Seq::<u8>::empty());
    lemma_echo_in_one_chunk(second, rest);
}

/// Output that does not start like the pending echo is shown whole, and
/// the pending echo is dropped.
pub proof fn lemma_echo_mismatch_shows_all(pending: Seq<u8>, chunk: Seq<u8>)
    requires
        pending.len() > 0,
        chunk.len() > 0,
        pending[0] != chunk[0],
    ensures
        echo_step(pending, chunk) == (Seq::<u8>::empty(), chunk),
{
    let common = if pending.len() < chunk.len() {
        pending.len()
    } else {
        chunk.len()
    };
    assert(pending.take(common as int)[0] != chunk.take(common as int)[0]);
}

/// Output that differs from the pending echo at any position of their
/// common part is not the echo: it is shown whole, and the pending echo is
/// dropped.
pub proof fn lemma_echo_differing_anywhere_shows_all(pending: Seq<u8>, chunk: Seq<u8>, j: int)
    requires
        0 <= j < pending.len(),
        j < chunk.len(),
        pending[j] != chunk[j],
    ensures
        echo_step(pending, chunk) == (Seq::<u8>::empty(), chunk),
{
    let common = if pending.len() < chunk.len() {
        pending.len()
    } else {
        chunk.len()
    };
    assert(pending.take(common as int)[j] != chunk.take(common as int)[j]);
}

/// Output that agrees with the pending echo over all of their common part
/// (when there is one) is the echo, or the start of it: that part is hidden
/// and taken off the pending echo, and only the rest of the output is
/// shown.
pub proof fn lemma_echo_agreeing_prefix_is_hidden(pending: Seq<u8>, chunk: Seq<u8>)
    requires
        pending.len() > 0,
        chunk.len() > 0,
        forall|j: int| 0 <= j < pending.len() && j < chunk.len() ==> pending[j] == chunk[j],
    ensures
        pending.len() <= chunk.len() ==> echo_step(pending, chunk) == (
            Seq::<u8>::empty(),
            chunk.subrange(pending.len() as int, chunk.len() as int),
        ),
        chunk.len() <= pending.len() ==> echo_step(pending, chunk) == (
            pending.subrange(chunk.len() as int, pending.len() as int),
            Seq::<u8>::empty(),
        ),
{
    let common = if pending.len() < chunk.len() {
        pending.len()
    } else {
        chunk.len()
    };
    assert(pending.take(common as int) =~= chunk.take(common as int));
    if pending.len() <= chunk.len() {
        assert(pending.skip(common as int) =~= Seq::<u8>::empty());
        assert(chunk.skip(common as int) =~= chunk.subrange(pending.len() as int, chunk.len() as int));
    }
    if chunk.len() <= pending.len() {
        assert(chunk.skip(common as int) =~= Seq::<u8>::empty());
        assert(pending.skip(common as int) =~= pending.subrange(chunk.len() as int, pending.len() as int));
    }
}

/// With no echo pending, or for an empty chunk, nothing is hidden: the
/// chunk is shown as it is and no echo is left pending.
pub proof fn lemma_echo_nothing_to_compare(pending: Seq<u8>, chunk: Seq<u8>)
    requires
        pending.len() == 0 || chunk.len() == 0,
    ensures
        echo_step(pending, chunk) == (Seq::<u8>::empty(), chunk),
{
}

/// The echo still expected from the remote shell.
pub struct EchoFilter {
    pending: Vec<u8>,
}

impl View for EchoFilter {
    type V = Seq<u8>;

    closed spec fn view(&self) -> Seq<u8> {
        self.pending@
    }
}

fn copy_range(src: &[u8], from: usize, to: usize) -> (out: Vec<u8>)
    requires
        from <= to <= src@.len(),
    ensures
        out@ == src@.subrange(from as int, to as int),
{
    let mut out = Vec::new();
    let mut i = from;
    while i < to
        invariant
            from <= i <= to <= src@.len(),
            out@ == src@.subrange(from as int, i as int),
        decreases to - i,
    {
        out.push(src[i]);
        i = i + 1;
        proof {
            assert(out@ =~= src@.subrange(from as int, i as int));
        }
    }
    out
}

impl EchoFilter {
    /// No echo is expected.
    pub fn new() -> (f: Self)
        ensures
            f@ == Seq::<u8>::empty(),
    {
        EchoFilter { pending: Vec::new() }
    }

    /// Expects the echo of `cmd`, forgetting any earlier one.
    pub fn expect(&mut self, cmd: &[u8])
        ensures
            final(self)@ == cmd@,
    {
        self.pending = copy_range(cmd, 0, cmd.len());
        proof {
            assert(cmd@.subrange(0, cmd@.len() as int) =~= cmd@);
        }
    }

    /// Takes one chunk of output and gives the part of it to show.
    pub fn filter(&mut self, chunk: &[u8]) -> (shown: Vec<u8>)
        ensures
            (final(self)@, shown@) == echo_step(old(self)@, chunk@),
    {
        let n = chunk.len();
        let p = self.pending.len();
        let common = if p < n {
            p
        } else {
            n
        };
        let mut same = true;
        let mut i: usize = 0;
        while i < common
            invariant
                common <= p == self.pending@.len(),
                common <= n == chunk@.len(),
                i <= common,
                same == (forall|j: int| 0 <= j < i ==> self.pending@[j] == chunk@[j]),
            decreases common - i,
        {
            if self.pending[i] != chunk[i] {
                same = false;
            }
            i = i + 1;
        }
        proof {
            if same {
                assert(self.pending@.take(common as int) =~= chunk@.take(common as int));
            } else {
                let j = choose|j: int| 0 <= j < common && self.pending@[j] != chunk@[j];
                assert(self.pending@.take(common as int)[j] != chunk@.take(common as int)[j]);
            }
        }
        if common > 0 && same {
            let rest = copy_range(self.pending.as_slice(), common, p);
            self.pending = rest;
            proof {
                assert(self.pending@ =~= old(self)@.skip(common as int));
            }
            let shown = copy_range(chunk, common, n);
            proof {
                assert(shown@ =~= chunk@.skip(common as int));
            }
            shown
        } else {
            self.pending = Vec::new();
            let shown = copy_range(chunk, 0, n);
            proof {
                assert(shown@ =~= chunk@);
                assert(self.pending@ =~= Seq::<u8>::empty());
            }
            shown
        }
    }
}

} // verus!
