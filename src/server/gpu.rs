use vstd::prelude::*;
use vstd::string::StringSliceAdditionalSpecFns;
use crate::error::ErrorKind;
use crate::graphics::crtc::CrtcSetting;
use crate::graphics::enums::{Vendor, vendor_of};
use crate::graphics::screen::Screen;

verus! {

/// Why the directory of device nodes could not be listed.
#[derive(Debug, Clone, Copy, PartialEq, Eq, Structural)]
pub enum DirectoryError {
    NotFound,
    PermissionDenied,
    Other,
}

/// The words for each reason a listing failed.
pub open spec fn directory_error_message(e: DirectoryError) -> Seq<char> {
    match e {
        DirectoryError::NotFound => "directory not found"@,
        DirectoryError::PermissionDenied => "permission denied"@,
        DirectoryError::Other => "directory not readable"@,
    }
}

impl DirectoryError {
    /// The error discovery reports; the kinds differ only in their message.
    pub fn kind(&self) -> (r: ErrorKind)
        ensures
            r == ErrorKind::GPUS_LIST_FAILED,
    {
        ErrorKind::GPUS_LIST_FAILED
    }

    /// What went wrong, in words.
    pub fn message(&self) -> (r: &'static str)
        ensures
            r@ == directory_error_message(*self),
    {
        match self {
            DirectoryError::NotFound => "directory not found",
            DirectoryError::PermissionDenied => "permission denied",
            DirectoryError::Other => "directory not readable",
        }
    }
}

/// The bytes of "card".
pub open spec fn card_bytes() -> Seq<u8> {
    seq![99u8, 97u8, 114u8, 100u8]
}

/// Whether `bytes` holds "card" somewhere.
pub open spec fn holds_card(bytes: Seq<u8>) -> bool {
    exists|i: int| 0 <= i && i + 4 <= bytes.len() && #[trigger] bytes.subrange(i, i + 4) == card_bytes()
}

/// Whether a device node name names a graphics card: it holds "card".
pub fn is_card_node(name: &str) -> (r: bool)
    ensures
        r == holds_card(name.spec_bytes()),
{
    let b = name.as_bytes();
    let n = b.len();
    if n < 4 {
        proof {
            assert forall|i: int| 0 <= i && i + 4 <= b@.len() implies #[trigger] b@.subrange(i, i + 4) != card_bytes() by {}
        }
        return false;
    }
    let mut i: usize = 0;
    while i <= n - 4
        invariant
            b@ == name.spec_bytes(),
            n == b@.len(),
            n >= 4,
            i <= n - 3,
            forall|j: int| 0 <= j < i ==> #[trigger] b@.subrange(j, j + 4) != card_bytes(),
        decreases n - i,
    {
        if b[i] == 99u8 && b[i + 1] == 97u8 && b[i + 2] == 114u8 && b[i + 3] == 100u8 {
            proof {
                let k = i as int;
                assert(b@.subrange(k, k + 4) =~= card_bytes());
                assert(holds_card(b@));
            }
            return true;
        }
        proof {
            if b@.subrange(i as int, i + 4) == card_bytes() {
                assert(b@.subrange(i as int, i + 4)[0] == b@[i as int]);
                assert(b@.subrange(i as int, i + 4)[1] == b@[i + 1]);
                assert(b@.subrange(i as int, i + 4)[2] == b@[i + 2]);
                assert(b@.subrange(i as int, i + 4)[3] == b@[i + 3]);
            }
        }
        i = i + 1;
    }
    false
}

/// Discovery's result from the GPUs that loaded: none at all is a failure.
pub fn gpus_found(gpus: Vec<GPU>) -> (r: Result<Vec<GPU>, ErrorKind>)
    ensures
        gpus@.len() == 0 ==> r == Err::<Vec<GPU>, ErrorKind>(ErrorKind::GPU_NOT_FOUND),
        gpus@.len() > 0 ==> (r matches Ok(v) && v@ == gpus@),
{
    if gpus.len() == 0 {
        Err(ErrorKind::GPU_NOT_FOUND)
    } else {
        Ok(gpus)
    }
}

/// Whether screen `k` is the first with connector id `id`.
pub open spec fn is_first_screen(screens: Seq<Screen>, id: u32, k: int) -> bool {
    &&& 0 <= k < screens.len()
    &&& screens[k].spec_connector().id == id
    &&& forall|j: int| 0 <= j < k ==> (#[trigger] screens[j]).spec_connector().id != id
}

/// Whether some screen has connector id `id`.
pub open spec fn has_screen(screens: Seq<Screen>, id: u32) -> bool {
    exists|k: int| 0 <= k < screens.len() && (#[trigger] screens[k]).spec_connector().id == id
}

/// The first screen with connector id `id`.
pub open spec fn first_screen(screens: Seq<Screen>, id: u32) -> Screen {
    screens[choose|k: int| is_first_screen(screens, id, k)]
}

pub proof fn lemma_first_screen(screens: Seq<Screen>, id: u32, k: int)
    requires
        is_first_screen(screens, id, k),
    ensures
        has_screen(screens, id),
        first_screen(screens, id) == screens[k],
{
    let c = choose|c: int| is_first_screen(screens, id, c);
    assert(is_first_screen(screens, id, c));
    if c < k {
        assert(screens[c].spec_connector().id != id);
    } else if c > k {
        assert(screens[k].spec_connector().id != id);
    }
}

/// Whether GPU `k` is the first with handle `id`.
pub open spec fn is_first_gpu(gpus: Seq<GPU>, id: i32, k: int) -> bool {
    &&& 0 <= k < gpus.len()
    &&& gpus[k].spec_id() == id
    &&& forall|j: int| 0 <= j < k ==> (#[trigger] gpus[j]).spec_id() != id
}

/// Whether some GPU has handle `id`.
pub open spec fn has_gpu(gpus: Seq<GPU>, id: i32) -> bool {
    exists|k: int| 0 <= k < gpus.len() && (#[trigger] gpus[k]).spec_id() == id
}

/// The first GPU with handle `id`.
pub open spec fn first_gpu(gpus: Seq<GPU>, id: i32) -> GPU {
    gpus[choose|k: int| is_first_gpu(gpus, id, k)]
}

pub proof fn lemma_first_gpu(gpus: Seq<GPU>, id: i32, k: int)
    requires
        is_first_gpu(gpus, id, k),
    ensures
        has_gpu(gpus, id),
        first_gpu(gpus, id) == gpus[k],
{
    let c = choose|c: int| is_first_gpu(gpus, id, c);
    assert(is_first_gpu(gpus, id, c));
    if c < k {
        assert(gpus[c].spec_id() != id);
    } else if c > k {
        assert(gpus[k].spec_id() != id);
    }
}

/// A graphics device and the screens found on it.
#[derive(Debug)]
pub struct GPU {
    id: i32,
    vendor: Vendor,
    model: u32,
    width: u32,
    height: u32,
    screens: Vec<Screen>,
}

impl GPU {
    pub closed spec fn spec_id(&self) -> i32 {
        self.id
    }

    pub closed spec fn spec_vendor(&self) -> Vendor {
        self.vendor
    }

    pub closed spec fn spec_model(&self) -> u32 {
        self.model
    }

    pub closed spec fn spec_screens(&self) -> Seq<Screen> {
        self.screens@
    }

    /// The largest resolution the device reported.
    pub closed spec fn spec_size(&self) -> (u32, u32) {
        (self.width, self.height)
    }

    /// The restoring programming of each screen, in order.
    pub open spec fn restores(&self) -> Seq<CrtcSetting> {
        Seq::new(self.spec_screens().len(), |k: int| self.spec_screens()[k].restore_setting())
    }

    /// Every screen is well formed, and their number fits a u32 count.
    pub open spec fn wf(&self) -> bool {
        &&& self.spec_screens().len() <= u32::MAX
        &&& forall|k: int| 0 <= k < self.spec_screens().len() ==> (#[trigger] self.spec_screens()[k]).wf()
    }

    /// The device with handle `id`, from what it reported: its PCI vendor and
    /// model ids, and its largest resolution (`None` where the resource query
    /// failed), with the screens built on its connectors.
    pub fn new(id: i32, vendor_id: u32, model: u32, max_size: Option<(u32, u32)>, screens: Vec<Screen>) -> (r:
        Result<GPU, ErrorKind>)
        requires
            screens@.len() <= u32::MAX,
            forall|k: int| 0 <= k < screens@.len() ==> (#[trigger] screens@[k]).wf(),
        ensures
            max_size is None ==> r == Err::<GPU, ErrorKind>(ErrorKind::GPU_RESOURCES_FAILED),
            max_size is Some ==> (r matches Ok(g) && g.wf() && g.spec_id() == id && g.spec_model() == model
                && g.spec_screens() == screens@ && g.spec_vendor() == vendor_of(vendor_id)
                && g.spec_size() == max_size->0),
    {
        match max_size {
            None => Err(ErrorKind::GPU_RESOURCES_FAILED),
            Some((width, height)) => Ok(
                GPU { id, vendor: Vendor::from(vendor_id), model, width, height, screens },
            ),
        }
    }

    #[inline]
    pub fn id(&self) -> (r: i32)
        ensures
            r == self.spec_id(),
    {
        self.id
    }

    pub fn vendor(&self) -> (r: Vendor)
        ensures
            r == self.spec_vendor(),
    {
        self.vendor
    }

    pub fn model(&self) -> (r: u32)
        ensures
            r == self.spec_model(),
    {
        self.model
    }

    pub fn width(&self) -> (r: u32)
        ensures
            r == self.spec_size().0,
    {
        self.width
    }

    pub fn height(&self) -> (r: u32)
        ensures
            r == self.spec_size().1,
    {
        self.height
    }

    pub fn screens(&self) -> (r: &[Screen])
        ensures
            r@ == self.spec_screens(),
    {
        self.screens.as_slice()
    }

    /// The screen with connector id `id`: the first one, if any.
    pub fn get_screen(&self, id: u32) -> (r: Option<&Screen>)
        ensures
            r is None <==> !has_screen(self.spec_screens(), id),
            r matches Some(s) ==> *s == first_screen(self.spec_screens(), id),
    {
        match self.screen_index(id) {
            None => None,
            Some(k) => {
                proof {
                    lemma_first_screen(self.spec_screens(), id, k as int);
                }
                Some(&self.screens[k])
            },
        }
    }

    /// The position of the screen with connector id `id`: the first one, if any.
    pub fn screen_index(&self, id: u32) -> (r: Option<usize>)
        ensures
            r is None <==> !has_screen(self.spec_screens(), id),
            r matches Some(k) ==> is_first_screen(self.spec_screens(), id, k as int),
    {
        let mut k: usize = 0;
        while k < self.screens.len()
            invariant
                k <= self.spec_screens().len(),
                forall|j: int| 0 <= j < k ==> (#[trigger] self.spec_screens()[j]).spec_connector().id != id,
            decreases self.spec_screens().len() - k,
        {
            if self.screens[k].id() == id {
                return Some(k);
            }
            k = k + 1;
        }
        None
    }

    /// The screens, to draw on; they stay well formed.
    pub fn screens_mut(&mut self) -> (r: &mut Vec<Screen>)
        ensures
            r@ == old(self).spec_screens(),
            final(self).spec_screens() == final(r)@,
            final(self).spec_id() == old(self).spec_id(),
    {
        &mut self.screens
    }

    /// The CRTC programmings that put every screen's display back as it was.
    pub fn dispose(&mut self) -> (r: Vec<CrtcSetting>)
        ensures
            *final(self) == *old(self),
            r@ == old(self).restores(),
    {
        self.restore_all()
    }

    /// The restoring programming of each screen, in order.
    pub fn restore_all(&self) -> (r: Vec<CrtcSetting>)
        ensures
            r@ == self.restores(),
    {
        let mut out: Vec<CrtcSetting> = Vec::new();
        let mut k: usize = 0;
        while k < self.screens.len()
            invariant
                k <= self.spec_screens().len(),
                out@.len() == k,
                forall|j: int| 0 <= j < k ==> out@[j] == (#[trigger] self.spec_screens()[j]).restore_setting(),
            decreases self.spec_screens().len() - k,
        {
            let s = &self.screens[k];
            out.push(s.restore());
            k = k + 1;
        }
        proof {
            assert(out@ =~= self.restores());
        }
        out
    }
}

} // verus!
