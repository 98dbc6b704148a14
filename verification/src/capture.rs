//! The output of a command as it is kept: both streams together never
//! take more than a fixed number of bytes, however much is offered.

use vstd::prelude::*;

verus! {

/// One of the two streams that a command writes to.
#[derive(Clone, Copy, Debug, PartialEq, Eq, Structural)]
pub enum Stream {
    Stdout,
    Stderr,
}

/// What has been kept of the two streams.
#[derive(Debug)]
pub struct Capture {
    stdout: Vec<u8>,
    stderr: Vec<u8>,
    cap: usize,
    truncated: bool,
}

pub struct CaptureView {
    pub stdout: Seq<u8>,
    pub stderr: Seq<u8>,
    pub cap: nat,
    /// Whether anything that was offered has been left out.
    pub truncated: bool,
}

impl CaptureView {
    /// Nothing kept yet, with room for `cap` bytes.
    pub open spec fn empty(cap: nat) -> CaptureView {
        CaptureView { stdout: Seq::empty(), stderr: Seq::empty(), cap, truncated: false }
    }

    /// The bytes that are kept, both streams together.
    pub open spec fn total(self) -> nat {
        self.stdout.len() + self.stderr.len()
    }

    pub open spec fn within_cap(self) -> bool {
        self.total() <= self.cap
    }

    /// The bytes that can still be kept.
    pub open spec fn room(self) -> nat {
        if self.total() <= self.cap {
            (self.cap - self.total()) as nat
        } else {
            0
        }
    }

    /// How much of a chunk of `len` bytes is kept.
    pub open spec fn taken(self, len: nat) -> nat {
        if len <= self.room() {
            len
        } else {
            self.room()
        }
    }

    /// The capture after `chunk` was offered on `stream`: the chunk is
    /// appended as far as there is room, and what does not fit is left
    /// out and remembered as such.
    pub open spec fn offer(self, stream: Stream, chunk: Seq<u8>) -> CaptureView {
        let kept = chunk.take(self.taken(chunk.len()) as int);
        CaptureView {
            stdout: if stream == Stream::Stdout {
                self.stdout + kept
            } else {
                self.stdout
            },
            stderr: if stream == Stream::Stderr {
                self.stderr + kept
            } else {
                self.stderr
            },
            cap: self.cap,
            truncated: self.truncated || chunk.len() > self.room(),
        }
    }
}

impl View for Capture {
    type V = CaptureView;

    closed spec fn view(&self) -> CaptureView {
        CaptureView {
            stdout: self.stdout@,
            stderr: self.stderr@,
            cap: self.cap as nat,
            truncated: self.truncated,
        }
    }
}

impl Capture {
    #[verifier::type_invariant]
    spec fn within_cap(&self) -> bool {
        self.stdout@.len() + self.stderr@.len() <= self.cap
    }

    /// An empty capture that keeps at most `cap` bytes.
    pub fn new(cap: usize) -> (r: Capture)
        ensures
            r@ == CaptureView::empty(cap as nat),
    {
        Capture { stdout: Vec::new(), stderr: Vec::new(), cap, truncated: false }
    }

    /// The bytes that can still be kept.
    pub fn room(&self) -> (r: usize)
        ensures
            r == self@.room(),
            self@.within_cap(),
    {
        proof {
            use_type_invariant(self);
        }
        self.cap - self.stdout.len() - self.stderr.len()
    }

    /// Whether anything that was offered has been left out.
    pub fn is_truncated(&self) -> (r: bool)
        ensures
            r == self@.truncated,
    {
        self.truncated
    }

    /// What was kept of standard output.
    pub fn stdout(&self) -> (r: &Vec<u8>)
        ensures
            r@ == self@.stdout,
    {
        &self.stdout
    }

    /// What was kept of standard error.
    pub fn stderr(&self) -> (r: &Vec<u8>)
        ensures
            r@ == self@.stderr,
    {
        &self.stderr
    }

    /// Gives up the capture: standard output, standard error, and whether
    /// anything was left out.
    pub fn into_parts(self) -> (r: (Vec<u8>, Vec<u8>, bool))
        ensures
            r.0@ == self@.stdout,
            r.1@ == self@.stderr,
            r.2 == self@.truncated,
    {
        (self.stdout, self.stderr, self.truncated)
    }

    /// Offers a chunk that the command wrote to `stream`. Says whether all
    /// of it was kept.
    pub fn offer(&mut self, stream: Stream, chunk: &[u8]) -> (fitted: bool)
        ensures
            final(self)@ == old(self)@.offer(stream, chunk@),
            fitted == (chunk@.len() <= old(self)@.room()),
            final(self)@.within_cap(),
    {
        let room = self.room();
        let fitted = chunk.len() <= room;
        let count: usize = if fitted {
            chunk.len()
        } else {
            room
        };
        let ghost before = self@;
        let mut kept: Vec<u8> = Vec::new();
        match stream {
            Stream::Stdout => core::mem::swap(&mut self.stdout, &mut kept),
            Stream::Stderr => core::mem::swap(&mut self.stderr, &mut kept),
        }
        let ghost held = kept@;
        let mut i: usize = 0;
        while i < count
            invariant
                i <= count,
                count <= chunk@.len(),
                kept@ == held + chunk@.take(i as int),
            decreases count - i,
        {
            kept.push(chunk[i]);
            assert(chunk@.take(i as int).push(chunk@[i as int]) =~= chunk@.take(i + 1));
            i += 1;
        }
        match stream {
            Stream::Stdout => core::mem::swap(&mut self.stdout, &mut kept),
            Stream::Stderr => core::mem::swap(&mut self.stderr, &mut kept),
        }
        if !fitted {
            self.truncated = true;
        }
        fitted
    }
}

/// However much is offered, what is kept stays within the cap, and what
/// was kept before stays as it was, at the front.
pub proof fn lemma_offer_keeps_bound(capture: CaptureView, stream: Stream, chunk: Seq<u8>)
    requires
        capture.within_cap(),
    ensures
        capture.offer(stream, chunk).within_cap(),
        capture.offer(stream, chunk).cap == capture.cap,
        capture.stdout.is_prefix_of(capture.offer(stream, chunk).stdout),
        capture.stderr.is_prefix_of(capture.offer(stream, chunk).stderr),
        capture.truncated ==> capture.offer(stream, chunk).truncated,
{
}

} // verus!
