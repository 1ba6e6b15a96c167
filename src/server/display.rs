use vstd::prelude::*;
use crate::graphics::crtc::CrtcSetting;
use crate::server::gpu::{GPU, first_gpu, has_gpu, is_first_gpu, lemma_first_gpu};

verus! {

/// The restoring programmings of every screen of `gpus`, GPU by GPU.
pub open spec fn all_restores(gpus: Seq<GPU>) -> Seq<CrtcSetting>
    decreases gpus.len(),
{
    if gpus.len() == 0 {
        Seq::empty()
    } else {
        all_restores(gpus.drop_last()) + gpus.last().restores()
    }
}

/// A display server instance: its number and the GPUs it drives.
#[derive(Debug)]
pub struct Display {
    id: i32,
    gpus: Vec<GPU>,
}

impl Display {
    pub closed spec fn spec_id(&self) -> i32 {
        self.id
    }

    pub closed spec fn spec_gpus(&self) -> Seq<GPU> {
        self.gpus@
    }

    /// Every GPU is well formed, and their number fits a u32 count.
    pub open spec fn wf(&self) -> bool {
        &&& self.spec_gpus().len() <= u32::MAX
        &&& forall|k: int| 0 <= k < self.spec_gpus().len() ==> (#[trigger] self.spec_gpus()[k]).wf()
    }

    /// Display number `id` over the GPUs that discovery loaded.
    pub fn new(id: i32, gpus: Vec<GPU>) -> (r: Display)
        requires
            gpus@.len() <= u32::MAX,
            forall|k: int| 0 <= k < gpus@.len() ==> (#[trigger] gpus@[k]).wf(),
        ensures
            r.wf(),
            r.spec_id() == id,
            r.spec_gpus() == gpus@,
    {
        Display { id, gpus }
    }

    pub fn id(&self) -> (r: i32)
        ensures
            r == self.spec_id(),
    {
        self.id
    }

    pub fn gpus(&self) -> (r: &[GPU])
        ensures
            r@ == self.spec_gpus(),
    {
        self.gpus.as_slice()
    }

    pub fn gpus_mut(&mut self) -> (r: &mut Vec<GPU>)
        ensures
            r@ == old(self).spec_gpus(),
            final(self).spec_gpus() == final(r)@,
            final(self).spec_id() == old(self).spec_id(),
    {
        &mut self.gpus
    }

    /// The position of the first GPU with handle `id`, if any.
    pub fn gpu_index(&self, id: i32) -> (r: Option<usize>)
        ensures
            r is None <==> !has_gpu(self.spec_gpus(), id),
            r matches Some(k) ==> is_first_gpu(self.spec_gpus(), id, k as int),
    {
        let mut k: usize = 0;
        while k < self.gpus.len()
            invariant
                k <= self.spec_gpus().len(),
                forall|j: int| 0 <= j < k ==> (#[trigger] self.spec_gpus()[j]).spec_id() != id,
            decreases self.spec_gpus().len() - k,
        {
            if self.gpus[k].id() == id {
                return Some(k);
            }
            k = k + 1;
        }
        None
    }

    /// The first GPU with handle `id`, if any.
    pub fn get_gpu(&self, id: i32) -> (r: Option<&GPU>)
        ensures
            r is None <==> !has_gpu(self.spec_gpus(), id),
            r matches Some(g) ==> *g == first_gpu(self.spec_gpus(), id),
    {
        match self.gpu_index(id) {
            None => None,
            Some(k) => {
                proof {
                    lemma_first_gpu(self.spec_gpus(), id, k as int);
                }
                Some(&self.gpus[k])
            },
        }
    }

    /// The CRTC programmings that put every screen of every GPU back as it
    /// was, GPU by GPU.
    pub fn dispose(&mut self) -> (r: Vec<CrtcSetting>)
        ensures
            *final(self) == *old(self),
            r@ == all_restores(old(self).spec_gpus()),
    {
        let mut out: Vec<CrtcSetting> = Vec::new();
        let mut k: usize = 0;
        while k < self.gpus.len()
            invariant
                *self == *old(self),
                k <= self.spec_gpus().len(),
                out@ == all_restores(self.spec_gpus().subrange(0, k as int)),
            decreases self.spec_gpus().len() - k,
        {
            let mut settings = self.gpus[k].restore_all();
            out.append(&mut settings);
            proof {
                assert(self.spec_gpus().subrange(0, k + 1).drop_last() =~= self.spec_gpus().subrange(0, k as int));
            }
            k = k + 1;
        }
        proof {
            assert(self.spec_gpus().subrange(0, k as int) =~= self.spec_gpus());
        }
        out
    }
}

} // verus!
