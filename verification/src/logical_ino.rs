//! The cursor that resolves a physical address to the inodes that refer to
//! it.
//!
//! It pages as the tree search does, with a simpler page: a count of
//! elements and a flat array of 64-bit values, three for each element. A
//! pull either yields the next triple of the page at hand, or asks the caller
//! to issue the request and to hand the reply to `resume`.

use crate::error::{view_result, Error, Violation};
use crate::raw::IOCTL_BUFF_SIZE;
use crate::tree_search::Phase;
use nix::errno::Errno;
use vstd::prelude::*;

verus! {

/// The reply to a request: how much room was left and was missing, how many
/// elements the array holds and how many found no room, and the array.
#[derive(Clone, Debug, PartialEq, Eq)]
pub struct Container {
    pub bytes_left: u32,
    pub bytes_missing: u32,
    pub elem_cnt: u32,
    pub elem_missed: u32,
    pub buff: Vec<u64>,
}

/// What a `Container` holds, with the array as a sequence.
pub struct ContainerView {
    pub bytes_left: u32,
    pub bytes_missing: u32,
    pub elem_cnt: u32,
    pub elem_missed: u32,
    pub buff: Seq<u64>,
}

impl View for Container {
    type V = ContainerView;

    open spec fn view(&self) -> ContainerView {
        ContainerView {
            bytes_left: self.bytes_left,
            bytes_missing: self.bytes_missing,
            elem_cnt: self.elem_cnt,
            elem_missed: self.elem_missed,
            buff: self.buff@,
        }
    }
}

impl ContainerView {
    /// The container before any request filled it: no element is counted,
    /// and the array has its full size and holds zeros.
    pub open spec fn spec_default() -> ContainerView {
        ContainerView {
            bytes_left: 0,
            bytes_missing: 0,
            elem_cnt: 0,
            elem_missed: 0,
            buff: Seq::new(IOCTL_BUFF_SIZE as nat, |i: int| 0u64),
        }
    }
}

impl Default for Container {
    /// The container before any request filled it.
    fn default() -> (r: Self)
        ensures
            r@ == ContainerView::spec_default(),
    {
        let mut buff: Vec<u64> = Vec::new();
        let mut i: usize = 0;
        while i < IOCTL_BUFF_SIZE
            invariant
                i <= IOCTL_BUFF_SIZE,
                buff@ == Seq::new(i as nat, |j: int| 0u64),
            decreases IOCTL_BUFF_SIZE - i,
        {
            buff.push(0);
            i += 1;
            assert(buff@ =~= Seq::new(i as nat, |j: int| 0u64));
        }
        Container { bytes_left: 0, bytes_missing: 0, elem_cnt: 0, elem_missed: 0, buff }
    }
}

/// The arguments of a request: the physical address to resolve, the size of
/// the buffer to fill, and the flags.
#[derive(Clone, Copy, Debug, PartialEq, Eq)]
pub struct InoRequest {
    pub logical: u64,
    pub size: u64,
    pub flags: u64,
}

/// What a pull gives.
#[derive(Clone, Copy, Debug, PartialEq, Eq)]
pub enum InoStep {
    /// The caller is to issue a request with these arguments and to hand the
    /// reply to `resume`.
    Query(InoRequest),
    /// The next reference: the inode, the offset within it, and the tree
    /// that the inode lies in.
    Triple(u64, u64, u64),
    /// No reference is left.
    End,
    /// No reference could be produced.
    Failed(Error),
}

/// The state of a resolution as a mathematical value: the address, the page
/// at hand with the number of elements that are left in it, the position of
/// the next element, and the phase.
pub struct InoCursor {
    pub bytenr: u64,
    pub container: ContainerView,
    pub bp: int,
    pub phase: Phase,
}

impl InoCursor {
    /// What holds of every cursor: the position lies inside the array, and
    /// while the cursor drains a page, elements are left in it.
    pub open spec fn wf(self) -> bool {
        &&& 0 <= self.bp <= self.container.buff.len()
        &&& self.phase == Phase::Draining ==> self.container.elem_cnt > 0
    }

    /// The arguments of the next request.
    pub open spec fn spec_request(self) -> InoRequest {
        InoRequest { logical: self.bytenr, size: IOCTL_BUFF_SIZE as u64, flags: 0 }
    }

    /// One step of draining: the three values at the position are handed
    /// out, the position moves behind them and one element less is left;
    /// when none is left the cursor is idle again. If fewer than three
    /// values lie at the position the step fails and the cursor stays as it
    /// is.
    pub open spec fn spec_drain(self) -> (InoCursor, InoStep) {
        if self.container.buff.len() - self.bp < 3 {
            (self, InoStep::Failed(Error::Schema(Violation::Truncated)))
        } else {
            let left: u32 = if self.container.elem_cnt > 0 {
                (self.container.elem_cnt - 1) as u32
            } else {
                0
            };
            (
                InoCursor {
                    container: ContainerView { elem_cnt: left, ..self.container },
                    bp: self.bp + 3,
                    phase: if left > 0 {
                        Phase::Draining
                    } else {
                        Phase::Idle
                    },
                    ..self
                },
                InoStep::Triple(
                    self.container.buff[self.bp],
                    self.container.buff[self.bp + 1],
                    self.container.buff[self.bp + 2],
                ),
            )
        }
    }

    /// What a pull does, by phase: an idle cursor asks for a page and awaits
    /// the reply; one that awaits a reply asks again; a draining one hands
    /// out a triple; an exhausted one reports the end.
    pub open spec fn spec_pull(self) -> (InoCursor, InoStep) {
        match self.phase {
            Phase::Idle => (
                InoCursor { phase: Phase::Querying, ..self },
                InoStep::Query(self.spec_request()),
            ),
            Phase::Querying => (self, InoStep::Query(self.spec_request())),
            Phase::Draining => self.spec_drain(),
            Phase::Exhausted => (self, InoStep::End),
        }
    }

    /// What the reply to a request does to a cursor that awaits one.
    ///
    /// A failed request is reported and leaves the cursor as it was before it
    /// asked. A page is taken over, with its counts of what was missed. If
    /// it holds no element the resolution is over; else its first triple is
    /// handed out. A cursor that awaits no reply drops the reply and does
    /// what a pull does.
    pub open spec fn spec_resume(self, reply: Result<ContainerView, Errno>) -> (
        InoCursor,
        InoStep,
    ) {
        if self.phase != Phase::Querying {
            self.spec_pull()
        } else {
            match reply {
                Err(e) => (
                    InoCursor { phase: Phase::Idle, ..self },
                    InoStep::Failed(Error::Call(e)),
                ),
                Ok(page) => if page.elem_cnt == 0 {
                    (
                        InoCursor { container: page, bp: 0, phase: Phase::Exhausted, ..self },
                        InoStep::End,
                    )
                } else {
                    (InoCursor {
                        container: page,
                        bp: 0,
                        phase: Phase::Draining,
                        ..self
                    }).spec_drain()
                },
            }
        }
    }
}

/// A resolution whose first request finds no element ends at once, and from
/// then on every pull reports the end without asking again. A request that
/// fails leaves the cursor as it was before it asked.
pub proof fn lemma_resolution_ends(c: InoCursor, page: ContainerView, e: Errno)
    requires
        c.phase == Phase::Idle,
        page.elem_cnt == 0,
    ensures
        c.spec_pull().1 == InoStep::Query(c.spec_request()),
        c.spec_pull().0.spec_resume(Ok(page)).1 == InoStep::End,
        ({
            let done = c.spec_pull().0.spec_resume(Ok(page)).0;
            done.spec_pull() == (done, InoStep::End)
        }),
        c.spec_pull().0.spec_resume(Err(e)) == (c, InoStep::Failed(Error::Call(e))),
{
}

/// The resolution of one physical address.
#[derive(Debug)]
pub struct LogicalIno {
    bytenr: u64,
    container: Container,
    bp: usize,
    phase: Phase,
}

impl View for LogicalIno {
    type V = InoCursor;

    closed spec fn view(&self) -> InoCursor {
        InoCursor {
            bytenr: self.bytenr,
            container: self.container@,
            bp: self.bp as int,
            phase: self.phase,
        }
    }
}

impl LogicalIno {
    #[verifier::type_invariant]
    spec fn inv(&self) -> bool {
        self@.wf()
    }

    /// The resolution of the physical address `bytenr`. It is idle, and its
    /// container is the one that no request has filled yet.
    pub fn new(bytenr: u64) -> (r: Self)
        ensures
            r@ == (InoCursor {
                bytenr,
                container: ContainerView::spec_default(),
                bp: 0,
                phase: Phase::Idle,
            }),
            r@.wf(),
    {
        LogicalIno { bytenr, container: Container::default(), bp: 0, phase: Phase::Idle }
    }

    /// The phase that the resolution is in.
    pub fn phase(&self) -> (r: Phase)
        ensures
            r == self@.phase,
    {
        self.phase
    }

    /// How many elements found no room in the page at hand. The count is
    /// for the caller to know; the cursor does nothing about it.
    pub fn elem_missed(&self) -> (r: u32)
        ensures
            r == self@.container.elem_missed,
    {
        self.container.elem_missed
    }

    /// How many bytes the page at hand was short of.
    pub fn bytes_missing(&self) -> (r: u32)
        ensures
            r == self@.container.bytes_missing,
    {
        self.container.bytes_missing
    }

    /// The arguments of the next request.
    fn request(&self) -> (r: InoRequest)
        ensures
            r == self@.spec_request(),
    {
        InoRequest { logical: self.bytenr, size: IOCTL_BUFF_SIZE as u64, flags: 0 }
    }

    /// Hands out the triple at the position.
    fn drain(&mut self) -> (step: InoStep)
        requires
            old(self)@.phase == Phase::Draining,
        ensures
            (final(self)@, step) == old(self)@.spec_drain(),
    {
        proof {
            use_type_invariant(&*self);
        }
        let bp: usize = self.bp;
        if self.container.buff.len() - bp < 3 {
            return InoStep::Failed(Error::Schema(Violation::Truncated));
        }
        let inum: u64 = self.container.buff[bp];
        let offset: u64 = self.container.buff[bp + 1];
        let root: u64 = self.container.buff[bp + 2];
        let left: u32 = self.container.elem_cnt - 1;
        self.bp = bp + 3;
        if left == 0 {
            self.phase = Phase::Idle;
        }
        self.container.elem_cnt = left;
        InoStep::Triple(inum, offset, root)
    }

    /// Asks the resolution for its next reference.
    ///
    /// The step is a triple while the page at hand holds one; `Query` when a
    /// page must be fetched first, after which `resume` goes on; `End` once a
    /// request found nothing; `Failed` when the array ends before the
    /// element does, in which case the cursor is left as it was.
    pub fn pull(&mut self) -> (step: InoStep)
        ensures
            (final(self)@, step) == old(self)@.spec_pull(),
            final(self)@.wf(),
    {
        proof {
            use_type_invariant(&*self);
        }
        let step = match self.phase {
            Phase::Idle => {
                self.phase = Phase::Querying;
                InoStep::Query(self.request())
            },
            Phase::Querying => InoStep::Query(self.request()),
            Phase::Draining => self.drain(),
            Phase::Exhausted => InoStep::End,
        };
        proof {
            use_type_invariant(&*self);
        }
        step
    }

    /// Hands the resolution the reply to the request that it asked for.
    ///
    /// A failed request gives `Failed` with the code of the failure, and the
    /// cursor is idle as before. A page without elements gives `End`. Any
    /// other page is taken over and its first triple is the step.
    pub fn resume(&mut self, reply: Result<Container, Errno>) -> (step: InoStep)
        ensures
            (final(self)@, step) == old(self)@.spec_resume(view_result(reply)),
            final(self)@.wf(),
    {
        proof {
            use_type_invariant(&*self);
        }
        let step = match self.phase {
            Phase::Querying => match reply {
                Err(e) => {
                    self.phase = Phase::Idle;
                    InoStep::Failed(Error::Call(e))
                },
                Ok(page) => {
                    self.bp = 0;
                    if page.elem_cnt == 0 {
                        self.phase = Phase::Exhausted;
                        self.container = page;
                        InoStep::End
                    } else {
                        self.container = page;
                        self.phase = Phase::Draining;
                        self.drain()
                    }
                },
            },
            _ => self.pull(),
        };
        proof {
            use_type_invariant(&*self);
        }
        step
    }
}

} // verus!
