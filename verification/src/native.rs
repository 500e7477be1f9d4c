//! The vocabulary of the foreign boundary: the calls that the library asks
//! for, and the answers of the engine, both as plain values.
//!
//! A `NativeCall` names one function of the engine together with the
//! arguments in the form in which they cross the boundary: strings
//! zero-terminated, flags as integers, image objects as their reference.
//! Whoever holds the real engine makes the call and reports what came back
//! in one of the reply types.

use vstd::prelude::*;
use vstd::slice::slice_to_vec;
use vstd::string::StringSliceAdditionalSpecFns;
use crate::options::{arguments_view, Argument, ArgumentView, Double, FromFileOptions, FromSvgOptions};
use crate::result::Error;
use crate::utils::{c_string, c_string_spec};

verus! {

/// What the engine reports of one of its image objects.
#[derive(Debug, Clone, Copy, PartialEq, Eq, Structural)]
pub struct NativeImage {
    /// The reference under which the engine knows the object, zero where
    /// there is no object.
    pub reference: usize,
    /// The width in pixels.
    pub width: i32,
    /// The height in pixels.
    pub height: i32,
    /// The number of bands.
    pub bands: i32,
    /// The number of pages.
    pub n_pages: i32,
    /// The engine's answer to whether the image has an alpha band: 1 where
    /// it has one.
    pub has_alpha: i32,
}

/// The engine's answer to a call that returns an image.
#[derive(Debug, PartialEq, Eq)]
pub struct LoadReply {
    /// The image that came back; its reference is zero where none did.
    pub image: NativeImage,
    /// The engine's diagnostic text as it stood when the call came back.
    pub diagnostic: String,
}

/// The engine's answer to a call that renders a vector graphic: such a call
/// returns a status and hands the image out beside it.
#[derive(Debug, PartialEq, Eq)]
pub struct SvgLoadReply {
    /// The status that the call returned, zero for success.
    pub status: i32,
    /// The image that was handed out; its reference is zero where none was.
    pub image: NativeImage,
    /// The engine's diagnostic text as it stood when the call came back.
    pub diagnostic: String,
}

/// The engine's answer to a query for a binary property.
#[derive(Debug, PartialEq, Eq)]
pub struct BlobReply {
    /// The status that the query returned, zero for success.
    pub status: i32,
    /// The bytes of the property, copied out of the engine's buffer.
    pub data: Vec<u8>,
    /// The engine's diagnostic text as it stood when the call came back.
    pub diagnostic: String,
}

/// One call into the engine, with its arguments as they cross the boundary.
#[derive(Debug, PartialEq, Eq)]
pub enum NativeCall {
    /// Load an image from a file.
    ImageNewFromFile { filename: Vec<u8>, arguments: Vec<Argument> },
    /// Render a vector graphic from a file.
    SvgLoad { filename: Vec<u8>, arguments: Vec<Argument> },
    /// Build an image like `image` in which band `i` of every pixel has the
    /// value `values[i]`; `n` is the number of values.
    ImageNewFromImage { image: usize, values: Vec<Double>, n: i32 },
    /// Ask for the type of the property `name` of `image`.
    ImageGetTypeof { image: usize, name: Vec<u8> },
    /// Ask for the bytes of the binary property `name` of `image`.
    ImageGetBlob { image: usize, name: Vec<u8> },
    /// Set the kill flag of `image` to `kill`.
    ImageSetKill { image: usize, kill: i32 },
    /// Give up one reference to `object`.
    ObjectUnref { object: usize },
}

/// Where an operation that needs the engine stands. Asked without the
/// engine's reply, it names the call that has to be made; asked again with
/// the reply to that call, it is done and has its result.
#[derive(Debug, PartialEq, Eq)]
pub enum Step<T> {
    /// The call that has to be made before the operation can go on.
    Call(NativeCall),
    /// The result of the operation.
    Done(T),
}

impl<T> Step<T> {
    /// True of the step that asks for exactly the call `call`.
    pub open spec fn asks_for(self, call: NativeCallView) -> bool {
        self matches Step::Call(asked) && asked@ == call
    }
}

/// The mathematical content of a `NativeCall`.
pub enum NativeCallView {
    ImageNewFromFile { filename: Seq<u8>, arguments: Seq<ArgumentView> },
    SvgLoad { filename: Seq<u8>, arguments: Seq<ArgumentView> },
    ImageNewFromImage { image: usize, values: Seq<Double>, n: i32 },
    ImageGetTypeof { image: usize, name: Seq<u8> },
    ImageGetBlob { image: usize, name: Seq<u8> },
    ImageSetKill { image: usize, kill: i32 },
    ObjectUnref { object: usize },
}

impl View for NativeCall {
    type V = NativeCallView;

    open spec fn view(&self) -> NativeCallView {
        match *self {
            NativeCall::ImageNewFromFile { filename, arguments } => NativeCallView::ImageNewFromFile {
                filename: filename@,
                arguments: arguments_view(arguments@),
            },
            NativeCall::SvgLoad { filename, arguments } => NativeCallView::SvgLoad {
                filename: filename@,
                arguments: arguments_view(arguments@),
            },
            NativeCall::ImageNewFromImage { image, values, n } => NativeCallView::ImageNewFromImage {
                image,
                values: values@,
                n,
            },
            NativeCall::ImageGetTypeof { image, name } => NativeCallView::ImageGetTypeof {
                image,
                name: name@,
            },
            NativeCall::ImageGetBlob { image, name } => NativeCallView::ImageGetBlob {
                image,
                name: name@,
            },
            NativeCall::ImageSetKill { image, kill } => NativeCallView::ImageSetKill { image, kill },
            NativeCall::ObjectUnref { object } => NativeCallView::ObjectUnref { object },
        }
    }
}

/// The content of a list of calls.
pub open spec fn calls_view(calls: Seq<NativeCall>) -> Seq<NativeCallView> {
    calls.map_values(|call: NativeCall| call@)
}

/// The named arguments of a load from a file: none without a configuration,
/// else those of the configuration.
pub open spec fn file_arguments(options: Option<FromFileOptions>) -> Seq<ArgumentView> {
    match options {
        Some(options) => options.arguments_spec(),
        None => Seq::empty(),
    }
}

/// The named arguments of a rendering: none without a configuration, else
/// those of the configuration.
pub open spec fn svg_arguments(options: Option<FromSvgOptions>) -> Seq<ArgumentView> {
    match options {
        Some(options) => options.arguments_spec(),
        None => Seq::empty(),
    }
}

/// The content of the outcome of building a call.
pub open spec fn built(r: Result<NativeCall, Error>) -> Result<NativeCallView, Error> {
    match r {
        Ok(call) => Ok(call@),
        Err(e) => Err(e),
    }
}

impl NativeCall {
    /// The call that loads the image in the file `filename`, or the error of
    /// a file name that cannot be marshaled.
    pub open spec fn image_new_from_file_spec(
        filename: &str,
        options: Option<FromFileOptions>,
    ) -> Result<NativeCallView, Error> {
        match c_string_spec(filename.spec_bytes()) {
            Ok(marshaled) => Ok(
                NativeCallView::ImageNewFromFile {
                    filename: marshaled,
                    arguments: file_arguments(options),
                },
            ),
            Err(e) => Err(e),
        }
    }

    /// The call that renders the vector graphic in the file `filename`, or
    /// the error of a file name that cannot be marshaled.
    pub open spec fn svgload_spec(filename: &str, options: Option<FromSvgOptions>) -> Result<
        NativeCallView,
        Error,
    > {
        match c_string_spec(filename.spec_bytes()) {
            Ok(marshaled) => Ok(
                NativeCallView::SvgLoad { filename: marshaled, arguments: svg_arguments(options) },
            ),
            Err(e) => Err(e),
        }
    }

    /// The call that asks for the type of a property, or the error of a
    /// property name that cannot be marshaled.
    pub open spec fn image_get_typeof_spec(image: usize, property: &str) -> Result<
        NativeCallView,
        Error,
    > {
        match c_string_spec(property.spec_bytes()) {
            Ok(marshaled) => Ok(NativeCallView::ImageGetTypeof { image, name: marshaled }),
            Err(e) => Err(e),
        }
    }

    /// The call that asks for the bytes of a binary property, or the error of
    /// a property name that cannot be marshaled.
    pub open spec fn image_get_blob_spec(image: usize, property: &str) -> Result<
        NativeCallView,
        Error,
    > {
        match c_string_spec(property.spec_bytes()) {
            Ok(marshaled) => Ok(NativeCallView::ImageGetBlob { image, name: marshaled }),
            Err(e) => Err(e),
        }
    }

    /// The call that loads the image in the file `filename`. With a
    /// configuration its settings are passed as named arguments, without one
    /// no named argument is passed. Refused where the file name cannot be
    /// marshaled.
    pub fn image_new_from_file(filename: &str, options: Option<FromFileOptions>) -> (r: Result<
        NativeCall,
        Error,
    >)
        ensures
            built(r) == Self::image_new_from_file_spec(filename, options),
    {
        let filename = match c_string(filename) {
            Ok(filename) => filename,
            Err(e) => return Err(e),
        };
        let arguments = match options {
            Some(options) => options.arguments(),
            None => Vec::new(),
        };
        assert(arguments_view(arguments@) =~= file_arguments(options));
        Ok(NativeCall::ImageNewFromFile { filename, arguments })
    }

    /// The call that renders the vector graphic in the file `filename`. With
    /// a configuration its settings are passed as named arguments, without
    /// one no named argument is passed. Refused where the file name cannot be
    /// marshaled.
    pub fn svgload(filename: &str, options: Option<FromSvgOptions>) -> (r: Result<
        NativeCall,
        Error,
    >)
        ensures
            built(r) == Self::svgload_spec(filename, options),
    {
        let filename = match c_string(filename) {
            Ok(filename) => filename,
            Err(e) => return Err(e),
        };
        let arguments = match options {
            Some(options) => options.arguments(),
            None => Vec::new(),
        };
        assert(arguments_view(arguments@) =~= svg_arguments(options));
        Ok(NativeCall::SvgLoad { filename, arguments })
    }

    /// The call that derives an image from the one under `image`: the
    /// source, the values of the bands in their order, and their number.
    pub open spec fn image_new_from_image_spec(image: usize, bands: Seq<Double>) -> NativeCallView {
        NativeCallView::ImageNewFromImage { image, values: bands, n: bands.len() as i32 }
    }

    /// The call that derives an image from the one under `image`, with one
    /// value for each band. The number of values is passed as a C integer,
    /// so there can be no more of them than such an integer counts.
    pub fn image_new_from_image(image: usize, bands: &[Double]) -> (call: NativeCall)
        requires
            bands@.len() <= i32::MAX,
        ensures
            call@ == Self::image_new_from_image_spec(image, bands@),
            call matches NativeCall::ImageNewFromImage { n, .. } && n == bands@.len(),
    {
        let values = slice_to_vec(bands);
        let n = bands.len() as i32;
        NativeCall::ImageNewFromImage { image, values, n }
    }

    /// The call that asks for the type of the property `property` of the
    /// image under `image`. Refused where the name cannot be marshaled.
    pub fn image_get_typeof(image: usize, property: &str) -> (r: Result<NativeCall, Error>)
        ensures
            built(r) == Self::image_get_typeof_spec(image, property),
    {
        match c_string(property) {
            Ok(name) => Ok(NativeCall::ImageGetTypeof { image, name }),
            Err(e) => Err(e),
        }
    }

    /// The call that asks for the bytes of the binary property `property` of
    /// the image under `image`. Refused where the name cannot be marshaled.
    pub fn image_get_blob(image: usize, property: &str) -> (r: Result<NativeCall, Error>)
        ensures
            built(r) == Self::image_get_blob_spec(image, property),
    {
        match c_string(property) {
            Ok(name) => Ok(NativeCall::ImageGetBlob { image, name }),
            Err(e) => Err(e),
        }
    }
}

} // verus!
