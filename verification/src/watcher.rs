//! The clipboard watcher (passive mode).
//!
//! The clipboard is polled. A new image is encoded and handed out for upload;
//! an image that was acted on before is left alone.

use std::collections::hash_map::DefaultHasher;
use std::hash::Hasher;

use vstd::bytes::u64_to_le_bytes;
use vstd::prelude::*;

use crate::upload::encode_png;

verus! {

/// How often to poll the clipboard, in milliseconds.
pub const POLL_INTERVAL_MILLIS: u64 = 1200;

/// An image on the clipboard: RGBA8 bytes, row by row.
pub struct ClipboardImage {
    pub width: usize,
    pub height: usize,
    pub bytes: Vec<u8>,
}

/// What a `ClipboardImage` stands for.
#[verifier::ext_equal]
pub struct ImageView {
    pub width: usize,
    pub height: usize,
    pub bytes: Seq<u8>,
}

impl View for ClipboardImage {
    type V = ImageView;

    open spec fn view(&self) -> ImageView {
        ImageView { width: self.width, height: self.height, bytes: self.bytes@ }
    }
}

impl ImageView {
    /// No more bytes than an image of this size has.
    pub open spec fn fits(self) -> bool {
        self.bytes.len() <= crate::upload::rgba_len(self.width as u32, self.height as u32)
    }

    /// The image has pixels, and all of their bytes.
    pub open spec fn complete(self) -> bool {
        &&& self.width as u32 > 0
        &&& self.height as u32 > 0
        &&& self.bytes.len() == crate::upload::rgba_len(self.width as u32, self.height as u32)
    }

    /// What the hasher is given of the image, write by write: its width, its
    /// height, the number of its bytes and the bytes.
    pub open spec fn hasher_input(self) -> Seq<Seq<u8>> {
        seq![
            vstd::bytes::spec_u64_to_le_bytes(self.width as u64),
            vstd::bytes::spec_u64_to_le_bytes(self.height as u64),
            vstd::bytes::spec_u64_to_le_bytes(self.bytes.len() as u64),
            self.bytes,
        ]
    }

    /// What identifies the image.
    pub open spec fn hash(self) -> u64 {
        <DefaultHasher as vstd::std_specs::hash::DefaultHasherAdditionalSpecFns>::spec_finish(
            self.hasher_input(),
        )
    }
}

impl ClipboardImage {
    /// Whether the image has no more bytes than its size allows.
    pub fn fits(&self) -> (r: bool)
        ensures
            r == self@.fits(),
    {
        crate::upload::no_larger_than_image(self.width as u32, self.height as u32, self.bytes.len())
    }
}

/// Hashes an image, to tell it from the one acted on last.
pub fn hash_image(image: &ClipboardImage) -> (r: u64)
    ensures
        r == image@.hash(),
{
    let mut h = DefaultHasher::new();
    h.write(u64_to_le_bytes(image.width as u64).as_slice());
    h.write(u64_to_le_bytes(image.height as u64).as_slice());
    h.write(u64_to_le_bytes(image.bytes.len() as u64).as_slice());
    h.write(image.bytes.as_slice());
    proof {
        assert(h@ =~= image@.hasher_input());
    }
    h.finish()
}

/// The view of an optional image.
pub open spec fn opt_image(image: Option<ClipboardImage>) -> Option<ImageView> {
    match image {
        Some(i) => Some(i@),
        None => None,
    }
}

/// What to do after a poll.
pub enum WatchStep {
    /// Nothing, until the next poll.
    Idle,
    /// The image could not be encoded.
    EncodeFailed(String),
    /// Upload this PNG file.
    Upload(Vec<u8>),
}

/// What a `WatchStep` stands for.
#[verifier::ext_equal]
pub enum WatchStepView {
    Idle,
    EncodeFailed(Seq<char>),
    Upload(Seq<u8>),
}

impl View for WatchStep {
    type V = WatchStepView;

    open spec fn view(&self) -> WatchStepView {
        match self {
            WatchStep::Idle => WatchStepView::Idle,
            WatchStep::EncodeFailed(m) => WatchStepView::EncodeFailed(m@),
            WatchStep::Upload(png) => WatchStepView::Upload(png@),
        }
    }
}

/// The step that an encoding leads to.
pub open spec fn step_for(encoded: Result<Seq<u8>, Seq<char>>) -> WatchStepView {
    match encoded {
        Ok(png) => WatchStepView::Upload(png),
        Err(m) => WatchStepView::EncodeFailed(m),
    }
}

/// Uploads what was encoded.
pub fn after_encoding(encoded: Result<Vec<u8>, String>) -> (r: WatchStep)
    ensures
        r@ == step_for(crate::upload::bytes_outcome(encoded)),
{
    match encoded {
        Ok(png) => WatchStep::Upload(png),
        Err(m) => WatchStep::EncodeFailed(m),
    }
}

/// The watcher: it remembers the hash of the image that it acted on last.
pub struct Watcher {
    pub last_hash: Option<u64>,
}

impl Watcher {
    /// Whether a poll that finds `image` acts on it.
    pub open spec fn acts_on(self, watching: bool, image: Option<ImageView>) -> bool {
        watching && (image matches Some(i) && self.last_hash != Some(i.hash()))
    }

    /// The watcher after a poll that finds `image`.
    pub open spec fn polled(self, watching: bool, image: Option<ImageView>) -> Watcher {
        if self.acts_on(watching, image) {
            Watcher { last_hash: Some(image->0.hash()) }
        } else {
            self
        }
    }

    /// What a poll that finds `image` leads to.
    pub open spec fn step(self, watching: bool, image: Option<ImageView>) -> WatchStepView {
        if self.acts_on(watching, image) {
            let i = image->0;
            step_for(crate::upload::encoded(i.width as u32, i.height as u32, i.bytes))
        } else {
            WatchStepView::Idle
        }
    }

    /// A watcher that has acted on nothing yet.
    pub fn new() -> (r: Watcher)
        ensures
            r.last_hash is None,
    {
        Watcher { last_hash: None }
    }

    /// Takes note of an image. Returns whether it is a new one.
    pub fn notice(&mut self, hash: u64) -> (r: bool)
        ensures
            r == (old(self).last_hash != Some(hash)),
            final(self).last_hash == Some(hash),
    {
        let seen = match self.last_hash {
            Some(last) => last == hash,
            None => false,
        };
        self.last_hash = Some(hash);
        !seen
    }

    /// One poll of the clipboard, which holds `image` or no image.
    pub fn poll(&mut self, watching: bool, image: Option<ClipboardImage>) -> (r: WatchStep)
        requires
            old(self).acts_on(watching, opt_image(image)) ==> opt_image(image)->0.fits(),
        ensures
            *final(self) == old(self).polled(watching, opt_image(image)),
            r@ == old(self).step(watching, opt_image(image)),
            old(self).acts_on(watching, opt_image(image)) ==> (r is Upload <==> opt_image(
                image,
            )->0.complete()),
    {
        if !watching {
            return WatchStep::Idle;
        }
        let image = match image {
            Some(image) => image,
            None => {
                return WatchStep::Idle;
            },
        };
        if !self.notice(hash_image(&image)) {
            return WatchStep::Idle;
        }
        after_encoding(encode_png(image.width as u32, image.height as u32, image.bytes))
    }
}

/// An image that stays on the clipboard is acted on once: after a poll that
/// found it, further polls that find it do nothing.
pub proof fn same_image_is_acted_on_once(w: Watcher, image: ImageView)
    ensures
        !w.polled(true, Some(image)).acts_on(true, Some(image)),
        w.polled(true, Some(image)).polled(true, Some(image)) == w.polled(true, Some(image)),
        w.polled(true, Some(image)).step(true, Some(image)) == WatchStepView::Idle,
{
}

/// A paused watcher, or one that finds no image, does nothing.
pub proof fn paused_watcher_does_nothing(w: Watcher, image: Option<ImageView>)
    ensures
        w.polled(false, image) == w,
        w.step(false, image) == WatchStepView::Idle,
        w.polled(true, None) == w,
        w.step(true, None) == WatchStepView::Idle,
{
}

/// The first image that a watcher finds is acted on.
pub proof fn first_image_is_acted_on(w: Watcher, image: ImageView)
    requires
        w.last_hash is None,
    ensures
        w.acts_on(true, Some(image)),
{
}

/// What the hasher is given determines the image: images that differ in width,
/// in height or in any byte are given to it as different writes.
pub proof fn hasher_input_determines_the_image(a: ImageView, b: ImageView)
    requires
        a.hasher_input() == b.hasher_input(),
    ensures
        a.width == b.width,
        a.height == b.height,
        a.bytes == b.bytes,
{
    vstd::bytes::lemma_auto_spec_u64_to_from_le_bytes();
    let x = a.hasher_input();
    let y = b.hasher_input();
    assert(x[0] == y[0] && x[1] == y[1] && x[3] == y[3]);
    assert(vstd::bytes::spec_u64_from_le_bytes(x[0]) == a.width as u64);
    assert(vstd::bytes::spec_u64_from_le_bytes(y[0]) == b.width as u64);
    assert(vstd::bytes::spec_u64_from_le_bytes(x[1]) == a.height as u64);
    assert(vstd::bytes::spec_u64_from_le_bytes(y[1]) == b.height as u64);
}

/// An image that the hasher tells from the last one is acted on, and is the last
/// one from then on: what the hasher makes of all of its input decides.
pub proof fn a_different_image_is_acted_on(w: Watcher, last: ImageView, image: ImageView)
    requires
        w.last_hash == Some(last.hash()),
        <DefaultHasher as vstd::std_specs::hash::DefaultHasherAdditionalSpecFns>::spec_finish(
            image.hasher_input(),
        ) != <DefaultHasher as vstd::std_specs::hash::DefaultHasherAdditionalSpecFns>::spec_finish(
            last.hasher_input(),
        ),
    ensures
        w.acts_on(true, Some(image)),
        w.polled(true, Some(image)).last_hash == Some(
            <DefaultHasher as vstd::std_specs::hash::DefaultHasherAdditionalSpecFns>::spec_finish(
                image.hasher_input(),
            ),
        ),
{
}

/// An image that is acted on is handed out as the PNG encoding of its own width,
/// its own height and its own bytes.
pub proof fn images_are_handed_out_as_they_are(w: Watcher, image: ImageView, png: Seq<u8>)
    requires
        w.acts_on(true, Some(image)),
        image.bytes.len() >= 4 * (image.width as u32 * image.height as u32),
    ensures
        w.step(true, Some(image)) == WatchStepView::Upload(png) <==> crate::upload::png_encoding(
            image.width as u32,
            image.height as u32,
            image.bytes,
        ) == Ok::<Seq<u8>, Seq<char>>(png),
        w.step(true, Some(image)) !is Idle,
{
    let e = crate::upload::encoded(image.width as u32, image.height as u32, image.bytes);
    crate::upload::the_file_is_the_encoding_of_the_image(
        image.width as u32,
        image.height as u32,
        image.bytes,
        png,
        Seq::empty(),
    );
    if e is Ok {
        assert(step_for(e) == WatchStepView::Upload(e->Ok_0));
    }
}

/// A poll does something exactly when the watcher is on and finds an image that
/// is not the last one.
pub proof fn polls_act_on_new_images_only(w: Watcher, watching: bool, image: ImageView)
    ensures
        w.acts_on(watching, Some(image)) <==> watching && w.last_hash != Some(image.hash()),
        !w.acts_on(watching, None),
        watching ==> w.polled(watching, Some(image)).last_hash == Some(image.hash()),
        !w.acts_on(watching, Some(image)) ==> w.step(watching, Some(image)) == WatchStepView::Idle
            && w.polled(watching, Some(image)) == w,
{
}

/// An encoding keeps its file, and a failure its message.
pub proof fn encodings_are_passed_on(png: Seq<u8>, message: Seq<char>)
    ensures
        step_for(Ok(png)) == WatchStepView::Upload(png),
        step_for(Err(message)) == WatchStepView::EncodeFailed(message),
{
}

/// The views of an image and of a step keep every byte and every text.
pub proof fn watcher_views_keep_their_contents(
    image: ClipboardImage,
    png: Vec<u8>,
    message: String,
)
    ensures
        image@.width == image.width,
        image@.height == image.height,
        image@.bytes == image.bytes@,
        opt_image(Some(image)) == Some(image@),
        opt_image(None) is None,
        WatchStep::Idle@ == WatchStepView::Idle,
        WatchStep::Upload(png)@ == WatchStepView::Upload(png@),
        WatchStep::EncodeFailed(message)@ == WatchStepView::EncodeFailed(message@),
{
}

/// An image whose sides fit the encoder fits if it has at most four bytes for
/// each pixel, and is complete if it has exactly as many and a pixel at all.
pub proof fn images_have_four_bytes_a_pixel(image: ImageView)
    requires
        image.width <= u32::MAX,
        image.height <= u32::MAX,
    ensures
        image.fits() <==> image.bytes.len() <= 4 * (image.width * image.height),
        image.complete() <==> image.width > 0 && image.height > 0 && image.bytes.len() == 4 * (
        image.width * image.height),
        POLL_INTERVAL_MILLIS == 1200,
{
}

/// An image that is acted on and cannot be encoded is reported with the reason
/// that encoding it gave.
pub proof fn failed_encodings_are_reported(w: Watcher, image: ImageView, reason: Seq<char>)
    requires
        w.acts_on(true, Some(image)),
    ensures
        w.step(true, Some(image)) == WatchStepView::EncodeFailed(reason) <==> crate::upload::encoded(
            image.width as u32,
            image.height as u32,
            image.bytes,
        ) == Err::<Seq<u8>, Seq<char>>(reason),
{
    let e = crate::upload::encoded(image.width as u32, image.height as u32, image.bytes);
    if e is Ok {
        assert(step_for(e) == WatchStepView::Upload(e->Ok_0));
    } else {
        assert(step_for(e) == WatchStepView::EncodeFailed(e->Err_0));
    }
}

/// A new watcher takes any image for a new one. An image that was noted is new
/// again only after another one was.
pub proof fn noted_images_are_not_new(
    fresh: Watcher,
    first: &mut Watcher,
    hash: u64,
    was_new: bool,
    second: &mut Watcher,
    again: u64,
    is_new: bool,
)
    requires
        call_ensures(Watcher::new, (), fresh),
        *old(first) == fresh,
        call_ensures(Watcher::notice, (first, hash), was_new),
        *old(second) == *final(first),
        call_ensures(Watcher::notice, (second, again), is_new),
    ensures
        was_new,
        is_new <==> again != hash,
        final(second).last_hash == Some(again),
{
}

/// A poll that finds a complete new image, with as many bytes as its size asks
/// for, hands out its PNG file; one that is paused, that finds no image or that
/// finds the last one again hands out nothing and forgets nothing.
pub proof fn polls_hand_out_new_images(
    w: &mut Watcher,
    watching: bool,
    image: ClipboardImage,
    step: WatchStep,
    paused: &mut Watcher,
    unseen: WatchStep,
)
    requires
        call_ensures(Watcher::poll, (w, watching, Some(image)), step),
        call_ensures(Watcher::poll, (paused, false, Some(image)), unseen),
    ensures
        unseen is Idle,
        *final(paused) == *old(paused),
        step is Idle <==> !watching || old(w).last_hash == Some(image@.hash()),
        watching ==> final(w).last_hash == Some(image@.hash()),
        !watching ==> *final(w) == *old(w),
        step is Upload ==> crate::upload::png_encoding(
            image@.width as u32,
            image@.height as u32,
            image@.bytes,
        ) == Ok::<Seq<u8>, Seq<char>>(step->Upload_0@),
{
    if step is Upload {
        crate::upload::the_file_is_the_encoding_of_the_image(
            image@.width as u32,
            image@.height as u32,
            image@.bytes,
            step->Upload_0@,
            Seq::empty(),
        );
    }
}

} // verus!
