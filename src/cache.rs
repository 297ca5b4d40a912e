//! The process-wide capture cache: display topology and the one live capture
//! device, built once on demand and released on teardown.
use crate::classify::ClassifiedError;
use crate::topology::{bounds_of, resolution_bounds, snapshot_all, DisplayInfo, DisplayRect, ResolutionBounds};
use vstd::prelude::*;

verus! {

/// A shared reference to the one live capture device: it names the device,
/// and every copy names the same one. The device itself belongs to the cache;
/// a handle kept past a teardown names a device that no longer exists, and
/// copies of one handle must not capture frames at the same time.
#[derive(Clone, Copy, Debug, PartialEq, Eq, Structural)]
pub struct CaptureDeviceHandle {
    pub id: u64,
}

impl CaptureDeviceHandle {
    /// Another handle to the same device.
    pub fn share(&self) -> (r: CaptureDeviceHandle)
        ensures
            r == *self,
    {
        *self
    }
}

/// Why a capture request failed.
#[derive(Debug)]
pub enum CaptureError {
    /// The cache was read before it was built.
    CacheNotInitialized,
    /// The capture device could not be constructed; the failure is classified.
    DeviceConstructionFailed(ClassifiedError),
}

/// What a session needs to capture the current display.
#[derive(Debug)]
pub struct CapturerInfo {
    pub origin: (i32, i32),
    pub width: usize,
    pub height: usize,
    pub ndisplay: usize,
    pub current: usize,
    pub privacy_mode_id: i32,
    pub capturer: CaptureDeviceHandle,
}

/// The contents of a built cache.
pub struct CaptureView {
    pub rects: Seq<DisplayRect>,
    pub displays: Seq<DisplayInfo>,
    pub primary: nat,
    pub current: nat,
    pub device: CaptureDeviceHandle,
}

/// A topology the cache can hold: one descriptor per rectangle, and the
/// primary and current displays among them.
pub open spec fn valid_topology(v: CaptureView) -> bool {
    v.rects.len() == v.displays.len() && v.primary < v.rects.len() && v.current < v.rects.len()
}

/// The cache after a build of `built` is offered: an existing state is kept
/// whole, an absent one is replaced whole by `built`.
pub open spec fn install_spec(c: Option<CaptureView>, built: CaptureView) -> Option<CaptureView> {
    match c {
        Some(v) => Some(v),
        None => Some(built),
    }
}

/// Whether a request for the cache must enumerate and construct: only when it is absent.
pub open spec fn needs_build(c: Option<CaptureView>) -> bool {
    c is None
}

/// A run of requests on the cache `c`, served one at a time under the
/// exclusive lock: a request that finds the cache absent enumerates and
/// installs its own build (the matching entry of `offers`), one that finds it
/// built reads it. Gives the cache afterwards and how many requests enumerated.
pub open spec fn serve(c: Option<CaptureView>, offers: Seq<CaptureView>) -> (Option<CaptureView>, nat)
    decreases offers.len(),
{
    if offers.len() == 0 {
        (c, 0)
    } else {
        let (before, builds) = serve(c, offers.drop_last());
        if needs_build(before) {
            (install_spec(before, offers.last()), builds + 1)
        } else {
            (before, builds)
        }
    }
}

/// Any number of requests on a cold cache enumerate and construct once: the
/// cache holds the first build afterwards, so all of them read the same
/// display count, primary and current display.
pub proof fn lemma_init_once(offers: Seq<CaptureView>)
    requires
        offers.len() > 0,
    ensures
        serve(None, offers) == (Some(offers[0]), 1nat),
    decreases offers.len(),
{
    if offers.len() > 1 {
        lemma_init_once(offers.drop_last());
        assert(offers.drop_last()[0] == offers[0]);
    } else {
        assert(serve(None, offers.drop_last()) == (None::<CaptureView>, 0nat));
    }
}

/// Requests on a built cache never enumerate and leave it as it is.
pub proof fn lemma_built_stays(v: CaptureView, offers: Seq<CaptureView>)
    ensures
        serve(Some(v), offers) == (Some(v), 0nat),
    decreases offers.len(),
{
    if offers.len() > 0 {
        lemma_built_stays(v, offers.drop_last());
    }
}

/// A teardown resets the cache: without it a second run of requests does not
/// enumerate again, after it (the cache is then absent) the second run
/// enumerates afresh and the cache holds its new build, two enumerations in all.
pub proof fn lemma_teardown_resets(first: Seq<CaptureView>, second: Seq<CaptureView>)
    requires
        first.len() > 0,
        second.len() > 0,
    ensures
        serve(serve(None, first).0, second).1 == 0,
        serve(None, first).1 + serve(None, second).1 == 2,
        serve(None, second).0 == Some(second[0]),
{
    lemma_init_once(first);
    lemma_init_once(second);
    lemma_built_stays(first[0], second);
}

/// Handles taken from one build of the cache alias one device: later
/// requests keep the device that the first handle names.
pub proof fn lemma_handles_alias(v: CaptureView, offers: Seq<CaptureView>)
    ensures
        serve(Some(v), offers).0 matches Some(w) && w.device == v.device,
{
    lemma_built_stays(v, offers);
}

/// The fully built contents of the cache.
#[derive(Debug)]
struct CaptureState {
    rects: Vec<DisplayRect>,
    displays: Vec<DisplayInfo>,
    num: usize,
    primary: usize,
    current: usize,
    device: CaptureDeviceHandle,
}

impl CaptureState {
    spec fn view(&self) -> CaptureView {
        CaptureView {
            rects: self.rects@,
            displays: self.displays@,
            primary: self.primary as nat,
            current: self.current as nat,
            device: self.device,
        }
    }

    spec fn wf(&self) -> bool {
        valid_topology(self.view()) && self.num == self.rects@.len()
    }
}

/// The capture cache: absent until built, then holding one topology and one device.
#[derive(Debug)]
pub struct CaptureCache {
    state: Option<CaptureState>,
}

impl View for CaptureCache {
    type V = Option<CaptureView>;

    closed spec fn view(&self) -> Option<CaptureView> {
        match self.state {
            Some(s) => Some(s.view()),
            None => None,
        }
    }
}

impl CaptureCache {
    /// The cache's invariant: a present state has a valid topology.
    pub closed spec fn wf(&self) -> bool {
        match self.state {
            Some(s) => s.wf(),
            None => true,
        }
    }

    /// A built cache holds a valid topology: one descriptor per rectangle,
    /// and the primary and current displays among them.
    pub proof fn lemma_view_valid(&self)
        requires
            self.wf(),
        ensures
            self@ matches Some(v) ==> valid_topology(v),
    {
    }

    /// The cache of a fresh process: absent.
    pub fn new() -> (r: CaptureCache)
        ensures
            r.wf(),
            r@ is None,
    {
        CaptureCache { state: None }
    }

    /// Whether the cache is built; the fast path of a request reads only this.
    pub fn is_ready(&self) -> (r: bool)
        ensures
            r == (self@ is Some),
    {
        self.state.is_some()
    }

    /// Offers a freshly enumerated topology and the outcome of constructing
    /// its device. A cache that is already built is kept whole (another
    /// request built it first). Otherwise a constructed device is published
    /// together with the topology, in one step, and the bounding box of the
    /// current display is returned when it is to be forwarded; a failed
    /// construction leaves the cache absent and reports the classified failure.
    pub fn install(
        &mut self,
        rects: Vec<DisplayRect>,
        displays: Vec<DisplayInfo>,
        primary: usize,
        current: usize,
        device: Result<CaptureDeviceHandle, ClassifiedError>,
    ) -> (r: Result<Option<ResolutionBounds>, CaptureError>)
        requires
            old(self).wf(),
            rects@.len() == displays@.len(),
            primary < rects@.len(),
            current < rects@.len(),
        ensures
            final(self).wf(),
            old(self)@ is Some ==> final(self)@ == old(self)@ && r == Ok::<
                Option<ResolutionBounds>,
                CaptureError,
            >(None),
            old(self)@ is None ==> match device {
                Ok(d) => final(self)@ == install_spec(
                    old(self)@,
                    (CaptureView {
                        rects: rects@,
                        displays: displays@,
                        primary: primary as nat,
                        current: current as nat,
                        device: d,
                    }),
                ) && r == Ok::<Option<ResolutionBounds>, CaptureError>(
                    bounds_of(rects@[current as int]),
                ),
                Err(e) => final(self)@ is None && r == Err::<Option<ResolutionBounds>, CaptureError>(
                    CaptureError::DeviceConstructionFailed(e),
                ),
            },
    {
        if self.state.is_some() {
            return Ok(None);
        }
        match device {
            Ok(d) => {
                let bounds = resolution_bounds(&rects[current]);
                let num = rects.len();
                self.state = Some(CaptureState { rects, displays, num, primary, current, device: d });
                Ok(bounds)
            },
            Err(e) => Err(CaptureError::DeviceConstructionFailed(e)),
        }
    }

    /// Releases the cached state and returns the handle of the device to
    /// close; a no-op on an absent cache.
    pub fn clear(&mut self) -> (released: Option<CaptureDeviceHandle>)
        requires
            old(self).wf(),
        ensures
            final(self).wf(),
            final(self)@ is None,
            released == match old(self)@ {
                Some(v) => Some(v.device),
                None => None::<CaptureDeviceHandle>,
            },
    {
        match self.state.take() {
            Some(s) => Some(s.device),
            None => None,
        }
    }

    /// The index of the primary display; fails on a cache not yet built.
    pub fn get_primary(&self) -> (r: Result<usize, CaptureError>)
        requires
            self.wf(),
        ensures
            match self@ {
                Some(v) => r matches Ok(p) && p == v.primary && p < v.rects.len(),
                None => r matches Err(CaptureError::CacheNotInitialized),
            },
    {
        match &self.state {
            Some(s) => Ok(s.primary),
            None => Err(CaptureError::CacheNotInitialized),
        }
    }

    /// The number of displays; fails on a cache not yet built.
    pub fn get_display_num(&self) -> (r: Result<usize, CaptureError>)
        requires
            self.wf(),
        ensures
            match self@ {
                Some(v) => r matches Ok(n) && n == v.rects.len() && n == v.displays.len(),
                None => r matches Err(CaptureError::CacheNotInitialized),
            },
    {
        match &self.state {
            Some(s) => Ok(s.num),
            None => Err(CaptureError::CacheNotInitialized),
        }
    }

    /// The primary display's index and a copy of every descriptor; fails on a
    /// cache not yet built.
    pub fn get_displays(&self) -> (r: Result<(usize, Vec<DisplayInfo>), CaptureError>)
        requires
            self.wf(),
        ensures
            match self@ {
                Some(v) => r matches Ok(p) && p.0 == v.primary && p.1@ == v.displays && p.0
                    < p.1@.len() && p.1@.len() == v.rects.len(),
                None => r matches Err(CaptureError::CacheNotInitialized),
            },
    {
        match &self.state {
            Some(s) => Ok((s.primary, snapshot_all(&s.displays))),
            None => Err(CaptureError::CacheNotInitialized),
        }
    }

    /// The geometry of the current display, the display count and a handle to
    /// the cached device; fails on a cache not yet built.
    pub fn get_capturer(&self) -> (r: Result<CapturerInfo, CaptureError>)
        requires
            self.wf(),
        ensures
            match self@ {
                Some(v) => r matches Ok(c) && c.origin == v.rects[v.current as int].origin
                    && c.width == v.rects[v.current as int].width && c.height
                    == v.rects[v.current as int].height && c.ndisplay == v.rects.len()
                    && c.current == v.current && c.privacy_mode_id == 0 && c.capturer == v.device,
                None => r matches Err(CaptureError::CacheNotInitialized),
            },
    {
        match &self.state {
            Some(s) => {
                let rect = s.rects[s.current];
                Ok(
                    CapturerInfo {
                        origin: rect.origin,
                        width: rect.width,
                        height: rect.height,
                        ndisplay: s.num,
                        current: s.current,
                        privacy_mode_id: 0,
                        capturer: s.device.share(),
                    },
                )
            },
            None => Err(CaptureError::CacheNotInitialized),
        }
    }
}

} // verus!
