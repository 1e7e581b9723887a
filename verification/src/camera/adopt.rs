//! Taking over the descriptors of the camera service.
use std::collections::HashSet;

use vstd::prelude::*;

use crate::camera::wire::MAX_CAMERAS;

verus! {

/// What a descriptor is taken over as: nothing if it is none, or was taken over before.
pub open spec fn adopted(fd: i32, earlier: Seq<i32>) -> Option<i32> {
    if fd < 0 || earlier.contains(fd) {
        None
    } else {
        Some(fd)
    }
}

/// What the descriptor at `i` is taken over as.
pub open spec fn adopted_at(all: Seq<i32>, i: int) -> Option<i32> {
    adopted(all[i], all.take(i))
}

/// The descriptors from `from` up to `to` that are taken over.
pub open spec fn adopted_between(all: Seq<i32>, from: int, to: int) -> Seq<i32>
    decreases to,
{
    if to <= from || to <= 0 {
        Seq::empty()
    } else {
        match adopted_at(all, to - 1) {
            Some(fd) => adopted_between(all, from, to - 1).push(fd),
            None => adopted_between(all, from, to - 1),
        }
    }
}

/// How many cameras there are.
pub open spec fn offered(num_cameras: i32) -> nat {
    if num_cameras < 0 {
        0
    } else {
        num_cameras as nat
    }
}

/// All descriptors that were handed over: the control socket, then the streams.
pub open spec fn handed_over(ctrl_fd: i32, stream_fds: Seq<i32>, num_cameras: i32) -> Seq<i32> {
    seq![ctrl_fd] + stream_fds.take(offered(num_cameras) as int)
}

/// What became of the descriptors.
pub struct Adoption {
    pub ctrl: Option<i32>,
    /// One for each camera that can be published.
    pub streams: Vec<Option<i32>>,
    /// Those for which there is no camera, to be closed.
    pub close: Vec<i32>,
    /// There are cameras but no list of streams: nothing is handed on to the engine.
    pub refused: bool,
}

/// The same, as a plain value.
pub struct AdoptionModel {
    pub ctrl: Option<i32>,
    pub streams: Seq<Option<i32>>,
    pub close: Seq<i32>,
    pub refused: bool,
}

impl View for Adoption {
    type V = AdoptionModel;

    open spec fn view(&self) -> AdoptionModel {
        AdoptionModel {
            ctrl: self.ctrl,
            streams: self.streams@,
            close: self.close@,
            refused: self.refused,
        }
    }
}

/// What becomes of the descriptors of a service.
pub open spec fn adoption(
    ctrl_fd: i32,
    stream_fds: Option<Seq<i32>>,
    num_cameras: i32,
) -> AdoptionModel {
    match stream_fds {
        Some(fds) => {
            let all = handed_over(ctrl_fd, fds, num_cameras);
            let count = if offered(num_cameras) < MAX_CAMERAS {
                offered(num_cameras)
            } else {
                MAX_CAMERAS as nat
            };
            AdoptionModel {
                ctrl: adopted_at(all, 0),
                streams: Seq::new(count, |i: int| adopted_at(all, i + 1)),
                close: adopted_between(all, (count + 1) as int, all.len() as int),
                refused: false,
            }
        },
        None => {
            let ctrl = adopted(ctrl_fd, Seq::empty());
            if offered(num_cameras) == 0 {
                AdoptionModel { ctrl, streams: Seq::empty(), close: Seq::empty(), refused: false }
            } else {
                AdoptionModel {
                    ctrl: None,
                    streams: Seq::empty(),
                    close: match ctrl {
                        Some(fd) => seq![fd],
                        None => Seq::empty(),
                    },
                    refused: true,
                }
            }
        },
    }
}

/// Takes a descriptor over, if it is one and was not taken over before.
fn adopt_fd(fd: i32, seen: &mut HashSet<i32>, Ghost(earlier): Ghost<Seq<i32>>) -> (r: Option<i32>)
    requires
        forall|f: i32| f >= 0 ==> (#[trigger] old(seen)@.contains(f) <==> earlier.contains(f)),
    ensures
        r == adopted(fd, earlier),
        forall|f: i32|
            f >= 0 ==> (#[trigger] final(seen)@.contains(f) <==> earlier.push(fd).contains(f)),
{
    broadcast use vstd::std_specs::hash::group_hash_axioms;

    proof {
        assert forall|f: i32|
            #![trigger earlier.push(fd).contains(f)]
            earlier.push(fd).contains(f) <==> (f == fd || earlier.contains(f)) by {
            lemma_push_contains(earlier, fd, f);
        }
    }
    if fd < 0 || !seen.insert(fd) {
        return None;
    }
    Some(fd)
}

proof fn lemma_push_contains(s: Seq<i32>, x: i32, f: i32)
    ensures
        s.push(x).contains(f) <==> (f == x || s.contains(f)),
{
    if s.push(x).contains(f) {
        let k = choose|k: int| 0 <= k < s.push(x).len() && s.push(x)[k] == f;
        if k < s.len() {
            assert(s[k] == f);
        }
    }
    if s.contains(f) {
        let k = choose|k: int| 0 <= k < s.len() && s[k] == f;
        assert(s.push(x)[k] == f);
    }
    if f == x {
        assert(s.push(x)[s.len() as int] == f);
    }
}

/// Takes over a control socket and the streams of `num_cameras` cameras. All of them belong to
/// the library from here on, also those beyond the number of cameras that can be published: these
/// are to be closed. A descriptor that is handed over twice is taken over once.
///
/// Without a list of streams, but with cameras, the request is refused: nothing is handed on, and
/// the control socket is to be closed.
pub fn set_resources(ctrl_fd: i32, stream_fds: Option<&[i32]>, num_cameras: i32) -> (r: Adoption)
    requires
        stream_fds matches Some(fds) ==> offered(num_cameras) <= fds@.len(),
    ensures
        r@ == adoption(
            ctrl_fd,
            match stream_fds {
                Some(fds) => Some(fds@),
                None => None,
            },
            num_cameras,
        ),
        r.refused == (stream_fds is None && offered(num_cameras) > 0),
        match stream_fds {
            Some(fds) => ({
                let all = handed_over(ctrl_fd, fds@, num_cameras);
                let count = if offered(num_cameras) < MAX_CAMERAS {
                    offered(num_cameras)
                } else {
                    MAX_CAMERAS as nat
                };
                &&& r.ctrl == adopted_at(all, 0)
                &&& r.streams@ == Seq::new(count, |i: int| adopted_at(all, i + 1))
                &&& r.close@ == adopted_between(all, (count + 1) as int, all.len() as int)
            }),
            None => if offered(num_cameras) == 0 {
                r.ctrl == adopted(ctrl_fd, Seq::empty()) && r.streams@.len() == 0 && r.close@.len()
                    == 0
            } else {
                r.ctrl is None && r.streams@.len() == 0 && r.close@ == (if ctrl_fd < 0 {
                    Seq::empty()
                } else {
                    seq![ctrl_fd]
                })
            },
        },
{
    broadcast use vstd::std_specs::hash::group_hash_axioms;

    let count: usize = if num_cameras < 0 {
        0
    } else {
        num_cameras as usize
    };
    let mut seen: HashSet<i32> = HashSet::new();
    let ctrl = adopt_fd(ctrl_fd, &mut seen, Ghost(Seq::empty()));
    let mut streams: Vec<Option<i32>> = Vec::new();
    let mut close: Vec<i32> = Vec::new();
    let Some(fds) = stream_fds else {
        if count != 0 {
            if let Some(fd) = ctrl {
                close.push(fd);
            }
            assert(ctrl_fd >= 0 ==> close@ =~= seq![ctrl_fd]);
            return Adoption { ctrl: None, streams, close, refused: true };
        }
        return Adoption { ctrl, streams, close, refused: false };
    };
    let ghost all = handed_over(ctrl_fd, fds@, num_cameras);
    let mut i: usize = 0;
    proof {
        assert(all.take(0) =~= Seq::empty());
        assert(all.take(1) =~= Seq::<i32>::empty().push(ctrl_fd));
    }
    while i < count
        invariant
            i <= count,
            count == offered(num_cameras),
            count <= fds@.len(),
            all == handed_over(ctrl_fd, fds@, num_cameras),
            all.len() == count + 1,
            forall|f: i32|
                f >= 0 ==> (#[trigger] seen@.contains(f) <==> all.take(i + 1).contains(f)),
            streams@.len() == (if i < MAX_CAMERAS {
                i
            } else {
                MAX_CAMERAS
            }),
            forall|j: int| 0 <= j < streams@.len() ==> streams@[j] == adopted_at(all, j + 1),
            close@ == adopted_between(all, MAX_CAMERAS + 1, i + 1),
        decreases count - i,
    {
        let fd = fds[i];
        assert(all[i + 1] == fd);
        let owned = adopt_fd(fd, &mut seen, Ghost(all.take(i + 1)));
        assert(all.take(i + 2) =~= all.take(i + 1).push(fd));
        if i < MAX_CAMERAS {
            streams.push(owned);
        } else if let Some(fd) = owned {
            close.push(fd);
        }
        i += 1;
    }
    proof {
        let n = if count < MAX_CAMERAS {
            count
        } else {
            MAX_CAMERAS
        };
        assert(streams@ =~= Seq::new(n as nat, |i: int| adopted_at(all, i + 1)));
    }
    Adoption { ctrl, streams, close, refused: false }
}

/// How often `fd` is taken over among the first `n`.
pub open spec fn times_adopted(all: Seq<i32>, n: int, fd: i32) -> nat
    decreases n,
{
    if n <= 0 {
        0
    } else {
        times_adopted(all, n - 1, fd) + if adopted_at(all, n - 1) == Some(fd) {
            1nat
        } else {
            0
        }
    }
}

proof fn lemma_adopted_once(all: Seq<i32>, n: int, fd: i32)
    requires
        0 <= n <= all.len(),
    ensures
        times_adopted(all, n, fd) == (if fd >= 0 && all.take(n).contains(fd) {
            1nat
        } else {
            0
        }),
    decreases n,
{
    if n > 0 {
        lemma_adopted_once(all, n - 1, fd);
        assert(all.take(n) =~= all.take(n - 1).push(all[n - 1]));
        lemma_push_contains(all.take(n - 1), all[n - 1], fd);
    }
}

/// How often `fd` is among `fds`.
pub open spec fn times_in(fds: Seq<i32>, fd: i32) -> nat
    decreases fds.len(),
{
    if fds.len() == 0 {
        0
    } else {
        times_in(fds.drop_last(), fd) + if fds.last() == fd {
            1nat
        } else {
            0
        }
    }
}

/// How often `fd` is one of the first `n` streams.
pub open spec fn times_a_stream(streams: Seq<Option<i32>>, n: int, fd: i32) -> nat
    decreases n,
{
    if n <= 0 {
        0
    } else {
        times_a_stream(streams, n - 1, fd) + if streams[n - 1] == Some(fd) {
            1nat
        } else {
            0
        }
    }
}

proof fn lemma_adopted_between(all: Seq<i32>, from: int, to: int, fd: i32)
    requires
        0 <= from <= to <= all.len(),
    ensures
        times_adopted(all, from, fd) + times_in(adopted_between(all, from, to), fd)
            == times_adopted(all, to, fd),
    decreases to,
{
    if to > from {
        lemma_adopted_between(all, from, to - 1, fd);
        if let Some(f) = adopted_at(all, to - 1) {
            assert(adopted_between(all, from, to).drop_last() =~= adopted_between(
                all,
                from,
                to - 1,
            ));
        }
    }
}

proof fn lemma_adopted_streams(all: Seq<i32>, streams: Seq<Option<i32>>, n: int, fd: i32)
    requires
        0 <= n <= streams.len(),
        n + 1 <= all.len(),
        forall|i: int| 0 <= i < n ==> #[trigger] streams[i] == adopted_at(all, i + 1),
    ensures
        times_adopted(all, n + 1, fd) == times_adopted(all, 1, fd) + times_a_stream(
            streams,
            n,
            fd,
        ),
    decreases n,
{
    if n > 0 {
        lemma_adopted_streams(all, streams, n - 1, fd);
    }
}

/// Every descriptor that is handed over, however often and in whatever place, is taken over
/// exactly once: as the control socket, as a stream, or to be closed. Nothing else is.
pub proof fn law_every_descriptor_is_taken_over_once(
    ctrl_fd: i32,
    stream_fds: Seq<i32>,
    num_cameras: i32,
    r: Adoption,
    fd: i32,
)
    requires
        offered(num_cameras) <= stream_fds.len(),
        ({
            let all = handed_over(ctrl_fd, stream_fds, num_cameras);
            let count = if offered(num_cameras) < MAX_CAMERAS {
                offered(num_cameras)
            } else {
                MAX_CAMERAS as nat
            };
            &&& r.ctrl == adopted_at(all, 0)
            &&& r.streams@ == Seq::new(count, |i: int| adopted_at(all, i + 1))
            &&& r.close@ == adopted_between(all, (count + 1) as int, all.len() as int)
        }),
    ensures
        ({
            let all = handed_over(ctrl_fd, stream_fds, num_cameras);
            (if r.ctrl == Some(fd) {
                1nat
            } else {
                0
            }) + times_a_stream(r.streams@, r.streams@.len() as int, fd) + times_in(r.close@, fd)
                == (if fd >= 0 && all.contains(fd) {
                1nat
            } else {
                0
            })
        }),
{
    let all = handed_over(ctrl_fd, stream_fds, num_cameras);
    let n = r.streams@.len() as int;
    lemma_adopted_streams(all, r.streams@, n, fd);
    lemma_adopted_between(all, n + 1, all.len() as int, fd);
    lemma_adopted_once(all, all.len() as int, fd);
    assert(all.take(all.len() as int) =~= all);
    assert(times_adopted(all, 0, fd) == 0);
}

} // verus!
