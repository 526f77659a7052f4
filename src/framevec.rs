use vstd::prelude::*;
use crate::raster::{LoadError, Raster};
use crate::texture::{spec_frame_data, Rgb, Texture};

verus! {

/// The frames of one sprite sheet, with the one now shown.
pub struct FrameVec {
    pub frames: Vec<Texture<Rgb>>,
    pub current_frame: usize,
}

impl FrameVec {
    /// At least one frame, all of one size, each with its edge grid, and the
    /// current index in range.
    pub open spec fn wf(&self) -> bool {
        &&& self.frames@.len() >= 1
        &&& self.current_frame < self.frames@.len()
        &&& forall|i: int|
            0 <= i < self.frames@.len() ==> {
                &&& (#[trigger] self.frames@[i]).wf_frame()
                &&& self.frames@[i].width == self.frames@[0].width
                &&& self.frames@[i].height == self.frames@[0].height
            }
    }

    /// Cuts a sheet into `frame_count` equal, full-height slices, left to
    /// right. Fails when the count is zero or does not divide the width.
    pub fn from_image(image: &Raster, frame_count: u32) -> (r: Result<FrameVec, LoadError>)
        requires
            image.wf(),
        ensures
            frame_count == 0 ==> r == Err::<FrameVec, LoadError>(LoadError::ZeroFrameCount),
            frame_count > 0 && image.width % frame_count != 0 ==> r == Err::<FrameVec, LoadError>(
                LoadError::UnevenFrames,
            ),
            frame_count > 0 && image.width % frame_count == 0 ==> r is Ok,
            r matches Ok(fv) ==> {
                &&& fv.wf()
                &&& fv.current_frame == 0
                &&& fv.frames@.len() == frame_count
                &&& forall|f: int|
                    0 <= f < frame_count ==> {
                        &&& (#[trigger] fv.frames@[f]).width == image.width / frame_count
                        &&& fv.frames@[f].height == image.height
                        &&& fv.frames@[f].data@ == spec_frame_data(*image, f, frame_count as int)
                    }
            },
    {
        if frame_count == 0 {
            return Err(LoadError::ZeroFrameCount);
        }
        if image.width % frame_count != 0 {
            return Err(LoadError::UnevenFrames);
        }
        let mut frames: Vec<Texture<Rgb>> = Vec::new();
        let mut img_frame: u32 = 0;
        while img_frame < frame_count
            invariant
                image.wf(),
                0 < frame_count,
                img_frame <= frame_count,
                frames@.len() == img_frame,
                forall|f: int|
                    0 <= f < img_frame ==> {
                        &&& (#[trigger] frames@[f]).wf_frame()
                        &&& frames@[f].width == image.width / frame_count
                        &&& frames@[f].height == image.height
                        &&& frames@[f].data@ == spec_frame_data(*image, f, frame_count as int)
                    },
            decreases frame_count - img_frame,
        {
            let t = Texture::from_image(image, img_frame, frame_count);
            frames.push(t);
            img_frame += 1;
        }
        Ok(FrameVec { frames, current_frame: 0 })
    }

    pub fn frame_width(&self) -> (r: u32)
        requires
            self.wf(),
        ensures
            r == self.frames@[0].width,
    {
        self.frames[0].width
    }

    pub fn frame_height(&self) -> (r: u32)
        requires
            self.wf(),
        ensures
            r == self.frames@[0].height,
    {
        self.frames[0].height
    }

    /// Moves to the next frame, wrapping to the first after the last.
    pub fn next_frame(&mut self)
        requires
            old(self).wf(),
        ensures
            final(self).wf(),
            final(self).frames == old(self).frames,
            final(self).current_frame == (old(self).current_frame + 1) % (old(self).frames@.len() as int),
    {
        let n = self.frames.len();
        self.current_frame = (self.current_frame + 1) % n;
    }

    pub fn get_frame(&self) -> (r: &Texture<Rgb>)
        requires
            self.wf(),
        ensures
            *r == self.frames@[self.current_frame as int],
            r.wf_frame(),
    {
        &self.frames[self.current_frame]
    }
}


/// The frame index after `k` advances from index `i` among `n` frames.
pub open spec fn spec_after_advances(i: int, n: int, k: nat) -> int
    decreases k,
{
    if k == 0 {
        i
    } else {
        (spec_after_advances(i, n, (k - 1) as nat) + 1) % n
    }
}

/// Advancing `k` times from index `i` of `n` frames lands on `(i + k) % n`:
/// the frames come in order and wrap to the first, and a single frame is
/// never left.
pub proof fn lemma_next_frame_cycles(i: int, n: int, k: nat)
    requires
        0 <= i < n,
    ensures
        spec_after_advances(i, n, k) == (i + k) % n,
    decreases k,
{
    if k == 0 {
        vstd::arithmetic::div_mod::lemma_small_mod(i as nat, n as nat);
    } else {
        lemma_next_frame_cycles(i, n, (k - 1) as nat);
        let x = i + k - 1;
        vstd::arithmetic::div_mod::lemma_add_mod_noop(x, 1, n);
        vstd::arithmetic::div_mod::lemma_mod_twice(1, n);
        vstd::arithmetic::div_mod::lemma_mod_twice(x, n);
        vstd::arithmetic::div_mod::lemma_add_mod_noop(x % n, 1, n);
    }
}

} // verus!
