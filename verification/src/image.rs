//! The image handle: the owner of one image object of the engine, and of
//! the handles that have to outlive it.
//!
//! A handle is made from the engine's answer to one of three calls: a load
//! from a file, the rendering of a vector graphic, or the derivation of an
//! image from another. It holds the image object and the list of the handles
//! that it keeps alive, nothing else. `kill` signals the object that it is
//! terminated; `cleanup` ends the handle and releases its own object; `drop`
//! ends the handle together with everything it keeps alive.
//!
//! An operation that needs the engine is asked twice. Asked without a reply
//! it names the one call that has to be made, with its arguments as they
//! cross the boundary. Asked again with the engine's reply to that call it
//! gives its result.

use vstd::prelude::*;
use crate::native::{
    calls_view, BlobReply, LoadReply, NativeCall, NativeCallView, NativeImage, Step, SvgLoadReply,
};
use crate::options::{Double, FromFileOptions, FromSvgOptions};
use crate::result::Error;

verus! {

/// An owning handle to an image object of the engine.
#[derive(Debug, PartialEq, Eq)]
pub struct VipsImage {
    native: NativeImage,
    children: Option<Vec<VipsImage>>,
}

/// The calls that signal and release the objects under `references`, one
/// after the other: for each reference first the call that sets its kill
/// flag, then the call that gives the reference up.
pub open spec fn release_calls(references: Seq<usize>) -> Seq<NativeCallView> {
    Seq::new(
        2 * references.len(),
        |k: int|
            if k % 2 == 0 {
                NativeCallView::ImageSetKill { image: references[k / 2], kill: 1 }
            } else {
                NativeCallView::ObjectUnref { object: references[k / 2] }
            },
    )
}

/// Releasing one list of objects after another yields the calls for the
/// first list followed by the calls for the second.
pub proof fn lemma_release_calls_concat(first: Seq<usize>, second: Seq<usize>)
    ensures
        release_calls(first + second) == release_calls(first) + release_calls(second),
{
    assert(release_calls(first + second) =~= release_calls(first) + release_calls(second));
}

/// Every object is released exactly once. Where no reference stands twice
/// in `references`, the call that gives up the reference at `i` stands at one
/// place of the calls and at no other, and the call just before it sets the
/// kill flag of the same object.
pub proof fn lemma_released_once(references: Seq<usize>, i: int)
    requires
        references.no_duplicates(),
        0 <= i < references.len(),
    ensures
        release_calls(references).len() == 2 * references.len(),
        release_calls(references)[2 * i] == (NativeCallView::ImageSetKill {
            image: references[i],
            kill: 1,
        }),
        release_calls(references)[2 * i + 1] == (NativeCallView::ObjectUnref {
            object: references[i],
        }),
        forall|k: int|
            0 <= k < release_calls(references).len() && release_calls(references)[k] == (
            NativeCallView::ObjectUnref { object: references[i] }) ==> k == 2 * i + 1,
{
    assert forall|k: int|
        0 <= k < release_calls(references).len() && release_calls(references)[k] == (
        NativeCallView::ObjectUnref { object: references[i] }) implies k == 2 * i + 1 by {
        assert(k % 2 == 1);
        assert(references[k / 2] == references[i]);
    }
}

impl VipsImage {
    /// A handle never wraps the null reference.
    #[verifier::type_invariant]
    spec fn wraps_an_object(self) -> bool {
        self.native.reference != 0
    }

    /// The image object that the handle owns, as the engine reported it when
    /// the handle was made.
    pub closed spec fn native(self) -> NativeImage {
        self.native
    }

    /// The handles that this one keeps alive, in the order in which they
    /// were registered.
    pub closed spec fn kept_alive(self) -> Seq<VipsImage> {
        match self.children {
            Some(children) => children@,
            None => Seq::empty(),
        }
    }

    /// True of a handle as a load returns it: it owns `native` and keeps
    /// nothing alive.
    pub open spec fn fresh_from(self, native: NativeImage) -> bool {
        &&& self.native() == native
        &&& self.kept_alive() == Seq::<VipsImage>::empty()
    }

    /// The references of the objects that go when this handle is dropped, in
    /// the order in which they are released: its own first, then those of
    /// each handle it keeps alive, in the order of registration.
    pub closed spec fn references(self) -> Seq<usize>
        decreases self,
    {
        match self.children {
            Some(children) => seq![self.native.reference] + Self::all_references(children@),
            None => seq![self.native.reference],
        }
    }

    /// The references of the objects that go with the handles of a list, one
    /// handle after the other.
    pub open spec fn all_references(images: Seq<VipsImage>) -> Seq<usize>
        decreases images,
    {
        if images.len() == 0 {
            Seq::empty()
        } else {
            Self::all_references(images.drop_last()) + images.last().references()
        }
    }

    /// True where every object under this handle has one owner: no reference
    /// belongs to two of the handles that go when this one is dropped.
    pub open spec fn owns_exclusively(self) -> bool {
        self.references().no_duplicates()
    }

    /// What a load makes of the image that the engine handed back: a fresh
    /// handle that owns it, or, where the call failed or handed back no
    /// image, the load error with the engine's diagnostic text.
    pub open spec fn load_outcome(
        r: Result<VipsImage, Error>,
        failed: bool,
        image: NativeImage,
        diagnostic: String,
    ) -> bool {
        if failed || image.reference == 0 {
            r == Err::<VipsImage, Error>(Error::ImageLoadError(diagnostic))
        } else {
            r matches Ok(handle) && handle.fresh_from(image)
        }
    }

    /// What a query for a binary property makes of the engine's reply: the
    /// bytes, or, where the status is not zero, the metadata error with the
    /// engine's diagnostic text.
    pub open spec fn blob_outcome(reply: BlobReply) -> Result<Vec<u8>, Error> {
        if reply.status != 0 {
            Err(Error::ImageMetadataError(reply.diagnostic))
        } else {
            Ok(reply.data)
        }
    }

    /// A load has one of two outcomes. It succeeds exactly where the call did
    /// not fail and an image came back, and the handle then wraps a reference
    /// that is not null. Else no handle is returned, and the error is the
    /// load error with the engine's diagnostic text, unchanged.
    pub proof fn lemma_load_outcome(
        r: Result<VipsImage, Error>,
        failed: bool,
        image: NativeImage,
        diagnostic: String,
    )
        requires
            Self::load_outcome(r, failed, image, diagnostic),
        ensures
            r is Ok <==> !failed && image.reference != 0,
            r matches Ok(handle) ==> handle.native().reference != 0,
            r matches Err(e) ==> e == Error::ImageLoadError(diagnostic) && e.text() == diagnostic@,
    {
    }

    /// The order of release: the handle's own object goes first, the
    /// objects of the handles that it keeps alive follow.
    pub proof fn lemma_references(self)
        ensures
            self.references() == seq![self.native().reference] + Self::all_references(
                self.kept_alive(),
            ),
            self.references().len() >= 1,
            self.references()[0] == self.native().reference,
    {
        assert(seq![self.native.reference] + Self::all_references(Seq::<VipsImage>::empty())
            =~= seq![self.native.reference]);
    }

    /// Dropping a handle is its cleanup followed by the dropping of the
    /// handles that it kept alive, in the order of their registration: no
    /// kept handle is signalled or released before the keeper's own object
    /// is.
    pub proof fn lemma_drop_is_cleanup_then_kept(self)
        ensures
            release_calls(self.references()) == seq![
                NativeCallView::ImageSetKill { image: self.native().reference, kill: 1 },
                NativeCallView::ObjectUnref { object: self.native().reference },
            ] + release_calls(Self::all_references(self.kept_alive())),
    {
        self.lemma_references();
        lemma_release_calls_concat(
            seq![self.native().reference],
            Self::all_references(self.kept_alive()),
        );
        assert(release_calls(seq![self.native().reference]) =~= seq![
            NativeCallView::ImageSetKill { image: self.native().reference, kill: 1 },
            NativeCallView::ObjectUnref { object: self.native().reference },
        ]);
    }

    /// The end of a handle begins with its own object: the first call sets
    /// the kill flag of the handle's object and the second gives its
    /// reference up. Where every object under the handle has one owner, no
    /// later call gives that reference up again.
    pub proof fn lemma_own_object_released_once(self)
        requires
            self.owns_exclusively(),
        ensures
            release_calls(self.references()).len() >= 2,
            release_calls(self.references())[0] == (NativeCallView::ImageSetKill {
                image: self.native().reference,
                kill: 1,
            }),
            release_calls(self.references())[1] == (NativeCallView::ObjectUnref {
                object: self.native().reference,
            }),
            forall|k: int|
                0 <= k < release_calls(self.references()).len() && release_calls(
                    self.references(),
                )[k] == (NativeCallView::ObjectUnref { object: self.native().reference }) ==> k
                    == 1,
    {
        self.lemma_references();
        lemma_released_once(self.references(), 0);
    }
}

impl VipsImage {
    /// Wraps the image of a load, or turns the failure into the load error.
    fn from_reply(failed: bool, image: NativeImage, diagnostic: String) -> (r: Result<Self, Error>)
        ensures
            Self::load_outcome(r, failed, image, diagnostic),
    {
        if failed || image.reference == 0 {
            return Err(Error::ImageLoadError(diagnostic));
        }
        Ok(VipsImage { native: image, children: None })
    }

    /// Loads the image of the file `filename`.
    ///
    /// Where the file name cannot be marshaled the load is done at once,
    /// with the string-conversion error, whatever `reply` holds. Else,
    /// without a reply, the step is the call to the engine's loader: the
    /// marshaled file name, and the settings of `options` as named arguments
    /// where there are options, no named argument where there are none. With
    /// the engine's reply to that call the load is done: it fails with
    /// `ImageLoadError`, carrying the engine's diagnostic text, where no
    /// image came back, and else gives the handle to the image, which keeps
    /// nothing alive.
    pub fn new_from_file(
        filename: &str,
        options: Option<FromFileOptions>,
        reply: Option<LoadReply>,
    ) -> (step: Step<Result<Self, Error>>)
        ensures
            match (NativeCall::image_new_from_file_spec(filename, options), reply) {
                (Err(e), _) => step == Step::Done(Err::<VipsImage, Error>(e)),
                (Ok(call), None) => step.asks_for(call),
                (Ok(_), Some(reply)) => step matches Step::Done(r) && Self::load_outcome(
                    r,
                    false,
                    reply.image,
                    reply.diagnostic,
                ),
            },
    {
        let call = match NativeCall::image_new_from_file(filename, options) {
            Ok(call) => call,
            Err(e) => return Step::Done(Err(e)),
        };
        match reply {
            None => Step::Call(call),
            Some(reply) => Step::Done(Self::from_reply(false, reply.image, reply.diagnostic)),
        }
    }

    /// Renders the vector graphic in the file `filename`.
    ///
    /// Where the file name cannot be marshaled the load is done at once,
    /// with the string-conversion error, whatever `reply` holds. Else,
    /// without a reply, the step is the call to the engine's renderer: the
    /// marshaled file name, and the settings of `options` as named arguments
    /// where there are options, no named argument where there are none. With
    /// the engine's reply to that call the load is done: it fails with
    /// `ImageLoadError`, carrying the engine's diagnostic text, where the
    /// call returned a status other than zero or handed out no image (either
    /// is enough), and else gives the handle to the image, which keeps
    /// nothing alive.
    pub fn new_from_svg(
        filename: &str,
        options: Option<FromSvgOptions>,
        reply: Option<SvgLoadReply>,
    ) -> (step: Step<Result<Self, Error>>)
        ensures
            match (NativeCall::svgload_spec(filename, options), reply) {
                (Err(e), _) => step == Step::Done(Err::<VipsImage, Error>(e)),
                (Ok(call), None) => step.asks_for(call),
                (Ok(_), Some(reply)) => step matches Step::Done(r) && Self::load_outcome(
                    r,
                    reply.status != 0,
                    reply.image,
                    reply.diagnostic,
                ),
            },
    {
        let call = match NativeCall::svgload(filename, options) {
            Ok(call) => call,
            Err(e) => return Step::Done(Err(e)),
        };
        match reply {
            None => Step::Call(call),
            Some(reply) => Step::Done(
                Self::from_reply(reply.status != 0, reply.image, reply.diagnostic),
            ),
        }
    }

    /// Derives an image from `image`, with one value for each band.
    ///
    /// Without a reply the step is the call to the engine's constructor: the
    /// reference of `image` as the source, the values of `bands` in their
    /// order, and their number. With the engine's reply to that call the
    /// derivation is done: it fails with `ImageLoadError`, carrying the
    /// engine's diagnostic text, where no image came back, and else gives
    /// the handle to the new image. Neither handle is registered with the
    /// other: the new one keeps nothing alive, and `image` is left as it is.
    ///
    /// The number of values crosses the boundary as a C integer, so there
    /// can be no more of them than such an integer counts.
    pub fn new_from_image(image: &VipsImage, bands: &[Double], reply: Option<LoadReply>) -> (step:
        Step<Result<Self, Error>>)
        requires
            bands@.len() <= i32::MAX,
        ensures
            match reply {
                None => step.asks_for(
                    NativeCall::image_new_from_image_spec(image.native().reference, bands@),
                ),
                Some(reply) => step matches Step::Done(r) && Self::load_outcome(
                    r,
                    false,
                    reply.image,
                    reply.diagnostic,
                ),
            },
    {
        match reply {
            None => Step::Call(NativeCall::image_new_from_image(image.native.reference, bands)),
            Some(reply) => Step::Done(Self::from_reply(false, reply.image, reply.diagnostic)),
        }
    }

    /// Derives an image from this one: `new_from_image` with this handle as
    /// the source.
    pub fn new_from_self(&self, bands: &[Double], reply: Option<LoadReply>) -> (step: Step<
        Result<Self, Error>,
    >)
        requires
            bands@.len() <= i32::MAX,
        ensures
            match reply {
                None => step.asks_for(
                    NativeCall::image_new_from_image_spec(self.native().reference, bands@),
                ),
                Some(reply) => step matches Step::Done(r) && Self::load_outcome(
                    r,
                    false,
                    reply.image,
                    reply.diagnostic,
                ),
            },
    {
        Self::new_from_image(self, bands, reply)
    }

    /// The reference under which the engine knows the image. It is never
    /// zero.
    pub fn reference(&self) -> (reference: usize)
        ensures
            reference == self.native().reference,
            reference != 0,
    {
        proof {
            use_type_invariant(self);
        }
        self.native.reference
    }

    /// The width of the image in pixels.
    pub open spec fn spec_get_width(&self) -> i32 {
        self.native().width
    }

    /// The width of the image in pixels.
    #[verifier::when_used_as_spec(spec_get_width)]
    pub fn get_width(&self) -> (width: i32)
        ensures
            width == self.native().width,
    {
        self.native.width
    }

    /// The height of the image in pixels.
    pub open spec fn spec_get_height(&self) -> i32 {
        self.native().height
    }

    /// The height of the image in pixels.
    #[verifier::when_used_as_spec(spec_get_height)]
    pub fn get_height(&self) -> (height: i32)
        ensures
            height == self.native().height,
    {
        self.native.height
    }

    /// The width and the height of the image, in this order.
    pub fn get_dimensions(&self) -> (dimensions: (i32, i32))
        ensures
            dimensions == (self.get_width(), self.get_height()),
    {
        (self.get_width(), self.get_height())
    }

    /// The number of bands of the image.
    pub fn get_bands(&self) -> (bands: i32)
        ensures
            bands == self.native().bands,
    {
        self.native.bands
    }

    /// The number of pages of the image.
    pub fn get_page_count(&self) -> (pages: i32)
        ensures
            pages == self.native().n_pages,
    {
        self.native.n_pages
    }

    /// True iff the engine reports an alpha band for the image.
    pub fn is_transparent(&self) -> (transparent: bool)
        ensures
            transparent == (self.native().has_alpha == 1),
    {
        self.native.has_alpha == 1
    }

    /// Whether the image has a property named `property`.
    ///
    /// Where the name cannot be marshaled the query is done at once, with
    /// the string-conversion error, whatever `gtype` holds. Else, without a
    /// reply, the step is the call that asks the engine for the type of the
    /// property of this image. With the type `gtype` that the engine
    /// reported the query is done: the property is there iff the type is not
    /// zero.
    pub fn has_property(&self, property: &str, gtype: Option<u64>) -> (step: Step<
        Result<bool, Error>,
    >)
        ensures
            match (NativeCall::image_get_typeof_spec(self.native().reference, property), gtype) {
                (Err(e), _) => step == Step::Done(Err::<bool, Error>(e)),
                (Ok(call), None) => step.asks_for(call),
                (Ok(_), Some(gtype)) => step == Step::Done(Ok::<bool, Error>(gtype > 0)),
            },
    {
        let call = match NativeCall::image_get_typeof(self.native.reference, property) {
            Ok(call) => call,
            Err(e) => return Step::Done(Err(e)),
        };
        match gtype {
            None => Step::Call(call),
            Some(gtype) => Step::Done(Ok(gtype > 0)),
        }
    }

    /// The bytes of the binary property named `property`.
    ///
    /// Where the name cannot be marshaled the query is done at once, with
    /// the string-conversion error, whatever `reply` holds. Else, without a
    /// reply, the step is the call that asks the engine for the bytes of the
    /// property of this image. With the engine's reply to that call the
    /// query is done: it fails with `ImageMetadataError`, carrying the
    /// engine's diagnostic text, where the status is not zero, and else
    /// gives the bytes of the reply, whole.
    pub fn get_blob(&self, property: &str, reply: Option<BlobReply>) -> (step: Step<
        Result<Vec<u8>, Error>,
    >)
        ensures
            match (NativeCall::image_get_blob_spec(self.native().reference, property), reply) {
                (Err(e), _) => step == Step::Done(Err::<Vec<u8>, Error>(e)),
                (Ok(call), None) => step.asks_for(call),
                (Ok(_), Some(reply)) => step == Step::Done(Self::blob_outcome(reply)),
            },
    {
        let call = match NativeCall::image_get_blob(self.native.reference, property) {
            Ok(call) => call,
            Err(e) => return Step::Done(Err(e)),
        };
        match reply {
            None => Step::Call(call),
            Some(reply) => {
                if reply.status != 0 {
                    Step::Done(Err(Error::ImageMetadataError(reply.diagnostic)))
                } else {
                    Step::Done(Ok(reply.data))
                }
            },
        }
    }

    /// The call that marks the image as terminated, so that whatever the
    /// engine is doing with it stops at its next occasion. The object is not
    /// released by this, and the handle stays as it is.
    ///
    /// May be asked for any number of times, also while something else reads
    /// the handle: the call is the same each time.
    pub fn kill(&self) -> (call: NativeCall)
        ensures
            call@ == (NativeCallView::ImageSetKill { image: self.native().reference, kill: 1 }),
    {
        NativeCall::ImageSetKill { image: self.native.reference, kill: 1 }
    }

    /// Registers `image` as one that must not be released before this
    /// handle: it is added behind the handles that are kept alive already.
    /// Permitted whether or not either image was killed.
    pub fn keepalive(&mut self, image: VipsImage)
        ensures
            final(self).kept_alive() == old(self).kept_alive().push(image),
            final(self).native() == old(self).native(),
            final(self).references() == old(self).references() + image.references(),
    {
        proof {
            use_type_invariant(&*self);
        }
        let ghost before = self.kept_alive();
        let mut taken: Option<Vec<VipsImage>> = None;
        std::mem::swap(&mut taken, &mut self.children);
        let mut children = match taken {
            Some(children) => children,
            None => Vec::new(),
        };
        children.push(image);
        proof {
            assert(children@ == before.push(image));
            assert(children@.drop_last() == before);
            assert(children@.last() == image);
            assert(seq![self.native.reference] + (Self::all_references(before) + image.references())
                == (seq![self.native.reference] + Self::all_references(before))
                + image.references());
            assert(seq![self.native.reference] + Self::all_references(Seq::<VipsImage>::empty())
                == seq![self.native.reference]);
        }
        self.children = Some(children);
    }

    /// Ends the handle and releases its own object, nothing else.
    ///
    /// The calls are two, whatever was done with the handle before and
    /// however often `kill` was asked for: first the call that sets the kill
    /// flag of the handle's object, then the one call that gives its
    /// reference up. The handles that this one kept alive are not touched.
    /// They are handed back, in the order of their registration, to be ended
    /// after it. The handle is consumed, so its object cannot be released a
    /// second time through it.
    pub fn cleanup(self) -> (end: (Vec<NativeCall>, Vec<VipsImage>))
        ensures
            calls_view(end.0@) == seq![
                NativeCallView::ImageSetKill { image: self.native().reference, kill: 1 },
                NativeCallView::ObjectUnref { object: self.native().reference },
            ],
            end.1@ == self.kept_alive(),
    {
        let mut calls: Vec<NativeCall> = Vec::new();
        calls.push(NativeCall::ImageSetKill { image: self.native.reference, kill: 1 });
        calls.push(NativeCall::ObjectUnref { object: self.native.reference });
        assert(calls_view(calls@) =~= seq![
            NativeCallView::ImageSetKill { image: self.native.reference, kill: 1 },
            NativeCallView::ObjectUnref { object: self.native.reference },
        ]);
        let kept = match self.children {
            Some(children) => children,
            None => Vec::new(),
        };
        (calls, kept)
    }

    /// Appends to `order` the references of this handle's object and of the
    /// objects of the handles that it keeps alive.
    fn collect_references(&self, order: &mut Vec<usize>)
        ensures
            final(order)@ == old(order)@ + self.references(),
        decreases self,
    {
        let ghost start = order@;
        let reference = self.native.reference;
        order.push(reference);
        assert(order@ == start + seq![reference]);
        match &self.children {
            Some(children) => {
                let mut i: usize = 0;
                while i < children.len()
                    invariant
                        i <= children.len(),
                        self.children == Some(*children),
                        order@ == start + (seq![reference] + Self::all_references(
                            children@.subrange(0, i as int),
                        )),
                    decreases children.len() - i,
                {
                    proof {
                        assert(decreases_to!(self.children => self.children->0));
                        assert(decreases_to!(*children => children[i as int]));
                        let next = children@.subrange(0, i as int + 1);
                        assert(next.drop_last() == children@.subrange(0, i as int));
                        assert(next.last() == children@[i as int]);
                    }
                    children[i].collect_references(order);
                    i += 1;
                }
                assert(children@.subrange(0, i as int) == children@);
            },
            None => {},
        }
    }

    /// The references of the objects that go when this handle is dropped, in
    /// the order in which they are released.
    pub fn release_order(&self) -> (order: Vec<usize>)
        ensures
            order@ == self.references(),
    {
        let mut order: Vec<usize> = Vec::new();
        self.collect_references(&mut order);
        order
    }

    /// True iff every object under this handle has one owner, so that
    /// dropping the handle releases each of them exactly once. A handle that
    /// keeps alive another handle to its own object, or two handles to one
    /// object, fails this.
    pub fn owns_each_object_once(&self) -> (once: bool)
        ensures
            once == self.owns_exclusively(),
    {
        let order = self.release_order();
        let mut i: usize = 0;
        while i < order.len()
            invariant
                i <= order.len(),
                order@ == self.references(),
                forall|a: int, b: int| 0 <= a < b < i ==> order@[a] != order@[b],
            decreases order.len() - i,
        {
            let mut j: usize = 0;
            while j < i
                invariant
                    j <= i < order.len(),
                    order@ == self.references(),
                    forall|a: int| 0 <= a < j ==> order@[a] != order@[i as int],
                decreases i - j,
            {
                if order[j] == order[i] {
                    assert(j as int != i as int && order@[j as int] == order@[i as int]);
                    return false;
                }
                j += 1;
            }
            i += 1;
        }
        assert forall|a: int, b: int|
            0 <= a < order@.len() && 0 <= b < order@.len() && a != b implies order@[a] != order@[b] by {
            if a < b {
                assert(order@[a] != order@[b]);
            } else {
                assert(order@[b] != order@[a]);
            }
        }
        true
    }

    /// Ends the handle together with everything it keeps alive: yields, in
    /// the order in which they are to be made, the calls that release its
    /// object and the objects of the handles that it keeps alive.
    ///
    /// For each object there is first the call that sets its kill flag and
    /// then the call that gives its reference up. The handle's own object
    /// comes first, as `cleanup` releases it; the kept handles follow in the
    /// order of their registration, each with what it keeps alive in turn.
    pub fn drop(self) -> (calls: Vec<NativeCall>)
        ensures
            calls_view(calls@) == release_calls(self.references()),
    {
        let order = self.release_order();
        let mut calls: Vec<NativeCall> = Vec::new();
        let mut i: usize = 0;
        assert(calls_view(calls@) =~= release_calls(order@.subrange(0, 0)));
        while i < order.len()
            invariant
                i <= order.len(),
                calls_view(calls@) == release_calls(order@.subrange(0, i as int)),
            decreases order.len() - i,
        {
            let reference = order[i];
            calls.push(NativeCall::ImageSetKill { image: reference, kill: 1 });
            calls.push(NativeCall::ObjectUnref { object: reference });
            proof {
                lemma_release_calls_concat(order@.subrange(0, i as int), seq![reference]);
                assert(order@.subrange(0, i as int + 1) == order@.subrange(0, i as int) + seq![
                    reference,
                ]);
                assert(calls_view(calls@) =~= release_calls(order@.subrange(0, i as int))
                    + release_calls(seq![reference]));
            }
            i += 1;
        }
        assert(order@.subrange(0, i as int) == order@);
        calls
    }
}

} // verus!