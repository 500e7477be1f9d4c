//! The optional configuration of the loaders, and the named arguments that a
//! configuration turns into.
//!
//! A loader that is given no configuration passes no named argument at all
//! and leaves every setting to the engine's default. One that is given a
//! configuration passes each of its settings, in a fixed order, as a pair of
//! a zero-terminated name and a value.

use vstd::prelude::*;
use vstd::string::{is_ascii, StringSliceAdditionalSpecFns};
use vstd::utf8::is_ascii_chars_encode_utf8;
use crate::enums::{VipsAccess, VipsFailOn};
use crate::utils::{c_string, lemma_no_nul};

verus! {

/// A binary64 floating-point number, carried as its bit pattern.
#[derive(Debug, Clone, Copy, PartialEq, Eq, Structural)]
pub struct Double(pub u64);

/// The value of a named argument, in the form in which it is passed.
#[derive(Debug, Clone, Copy, PartialEq, Eq, Structural)]
pub enum ArgumentValue {
    /// A C integer. Flags travel as 0 or 1, enumerated settings as their code.
    Int(i32),
    /// A C double.
    Double(Double),
}

/// A named argument of a native call.
#[derive(Debug, PartialEq, Eq)]
pub struct Argument {
    /// The name, zero-terminated.
    pub name: Vec<u8>,
    /// The value.
    pub value: ArgumentValue,
}

/// The mathematical content of an `Argument`.
pub struct ArgumentView {
    pub name: Seq<u8>,
    pub value: ArgumentValue,
}

impl View for Argument {
    type V = ArgumentView;

    open spec fn view(&self) -> ArgumentView {
        ArgumentView { name: self.name@, value: self.value }
    }
}

/// The content of a list of arguments.
pub open spec fn arguments_view(arguments: Seq<Argument>) -> Seq<ArgumentView> {
    arguments.map_values(|a: Argument| a@)
}

/// The argument that carries `value` under `name`.
pub open spec fn named(name: &str, value: ArgumentValue) -> ArgumentView {
    ArgumentView { name: name.spec_bytes().push(0u8), value }
}

/// A flag as the C integer it is passed as.
pub open spec fn flag(on: bool) -> ArgumentValue {
    ArgumentValue::Int(if on { 1i32 } else { 0i32 })
}

/// The bytes of an ASCII string that holds no zero character hold no zero.
proof fn lemma_ascii_no_nul(s: &str)
    requires
        is_ascii(s),
        forall|i: int| 0 <= i < s@.len() ==> s@[i] != '\0',
    ensures
        !s.spec_bytes().contains(0u8),
{
    is_ascii_chars_encode_utf8(s@);
    assert forall|j: int| 0 <= j < s.spec_bytes().len() implies s.spec_bytes()[j] != 0u8 by {
        assert(s@[j] != '\0');
        assert(s@[j] as u8 == s.spec_bytes()[j]);
    }
    lemma_no_nul(s.spec_bytes());
}

fn flag_value(on: bool) -> (value: ArgumentValue)
    ensures
        value == flag(on),
{
    if on {
        ArgumentValue::Int(1)
    } else {
        ArgumentValue::Int(0)
    }
}

/// Appends the argument that carries `value` under `name`.
fn push_named(arguments: &mut Vec<Argument>, name: &str, value: ArgumentValue)
    requires
        !name.spec_bytes().contains(0u8),
    ensures
        arguments_view(final(arguments)@) == arguments_view(old(arguments)@).push(named(name, value)),
{
    let ghost before = arguments@;
    match c_string(name) {
        Ok(marshaled) => {
            let argument = Argument { name: marshaled, value };
            arguments.push(argument);
            assert(arguments_view(arguments@) =~= arguments_view(before).push(named(name, value)));
        },
        Err(_) => {
            assert(false);
        },
    }
}

/// How an image is loaded from a file.
#[derive(Debug, Clone, Copy, PartialEq, Eq, Structural)]
pub struct FromFileOptions {
    /// Load the whole image into memory at once.
    pub memory: bool,
    /// The pattern in which the pixels will be read.
    pub access: VipsAccess,
}

impl FromFileOptions {
    /// The named arguments of this configuration: `memory`, then `access`.
    pub open spec fn arguments_spec(self) -> Seq<ArgumentView> {
        seq![
            named("memory", flag(self.memory)),
            named("access", ArgumentValue::Int(self.access.code())),
        ]
    }

    /// The named arguments that pass this configuration to the engine.
    pub fn arguments(&self) -> (arguments: Vec<Argument>)
        ensures
            arguments_view(arguments@) == self.arguments_spec(),
    {
        let mut arguments: Vec<Argument> = Vec::new();
        assert(arguments_view(arguments@) =~= Seq::<ArgumentView>::empty());
        proof {
            reveal_strlit("memory");
            reveal_strlit("access");
            lemma_ascii_no_nul("memory");
            lemma_ascii_no_nul("access");
        }
        push_named(&mut arguments, "memory", flag_value(self.memory));
        push_named(&mut arguments, "access", ArgumentValue::Int(self.access.code()));
        assert(arguments_view(arguments@) =~= self.arguments_spec());
        arguments
    }
}

/// The bit pattern of 72.0, the resolution at which the engine renders a
/// vector graphic that comes with no setting of its own.
pub const DEFAULT_DPI_BITS: u64 = 0x4052_0000_0000_0000;

/// The bit pattern of 1.0, the factor by which the engine scales a vector
/// graphic that comes with no setting of its own.
pub const DEFAULT_SCALE_BITS: u64 = 0x3FF0_0000_0000_0000;

/// How a vector graphic is rendered into an image.
#[derive(Debug, Clone, Copy, PartialEq, Eq, Structural)]
pub struct FromSvgOptions {
    /// The resolution of the rendering, in dots per inch.
    pub dpi: Double,
    /// The factor by which the rendering is scaled.
    pub scale: Double,
    /// Lift the engine's limit on the size of the input.
    pub unlimited: bool,
    /// The bit mask of flags for the loader.
    pub flags: i32,
    /// Load the whole image into memory at once.
    pub memory: bool,
    /// The pattern in which the pixels will be read.
    pub access: VipsAccess,
    /// How serious a problem has to be for the load to fail.
    pub fail_on: VipsFailOn,
    /// Have the engine check again whatever it has cached for the file.
    pub revalidate: bool,
}

impl FromSvgOptions {
    /// The named arguments of this configuration: `dpi`, `scale`,
    /// `unlimited`, `flags`, `memory`, `access`, `fail_on`, `revalidate`.
    pub open spec fn arguments_spec(self) -> Seq<ArgumentView> {
        seq![
            named("dpi", ArgumentValue::Double(self.dpi)),
            named("scale", ArgumentValue::Double(self.scale)),
            named("unlimited", flag(self.unlimited)),
            named("flags", ArgumentValue::Int(self.flags)),
            named("memory", flag(self.memory)),
            named("access", ArgumentValue::Int(self.access.code())),
            named("fail_on", ArgumentValue::Int(self.fail_on.code())),
            named("revalidate", flag(self.revalidate)),
        ]
    }

    /// The named arguments that pass this configuration to the engine.
    pub fn arguments(&self) -> (arguments: Vec<Argument>)
        ensures
            arguments_view(arguments@) == self.arguments_spec(),
    {
        let mut arguments: Vec<Argument> = Vec::new();
        assert(arguments_view(arguments@) =~= Seq::<ArgumentView>::empty());
        proof {
            reveal_strlit("dpi");
            reveal_strlit("scale");
            reveal_strlit("unlimited");
            reveal_strlit("flags");
            reveal_strlit("memory");
            reveal_strlit("access");
            reveal_strlit("fail_on");
            reveal_strlit("revalidate");
            lemma_ascii_no_nul("dpi");
            lemma_ascii_no_nul("scale");
            lemma_ascii_no_nul("unlimited");
            lemma_ascii_no_nul("flags");
            lemma_ascii_no_nul("memory");
            lemma_ascii_no_nul("access");
            lemma_ascii_no_nul("fail_on");
            lemma_ascii_no_nul("revalidate");
        }
        push_named(&mut arguments, "dpi", ArgumentValue::Double(self.dpi));
        push_named(&mut arguments, "scale", ArgumentValue::Double(self.scale));
        push_named(&mut arguments, "unlimited", flag_value(self.unlimited));
        push_named(&mut arguments, "flags", ArgumentValue::Int(self.flags));
        push_named(&mut arguments, "memory", flag_value(self.memory));
        push_named(&mut arguments, "access", ArgumentValue::Int(self.access.code()));
        push_named(&mut arguments, "fail_on", ArgumentValue::Int(self.fail_on.code()));
        push_named(&mut arguments, "revalidate", flag_value(self.revalidate));
        assert(arguments_view(arguments@) =~= self.arguments_spec());
        arguments
    }
}

impl Default for FromSvgOptions {
    /// The configuration that asks for what the engine does by itself: 72
    /// dots per inch, no scaling, random access, and every flag off.
    fn default() -> (options: Self)
        ensures
            options == (FromSvgOptions {
                dpi: Double(DEFAULT_DPI_BITS),
                scale: Double(DEFAULT_SCALE_BITS),
                unlimited: false,
                flags: 0,
                memory: false,
                access: VipsAccess::Random,
                fail_on: VipsFailOn::Never,
                revalidate: false,
            }),
    {
        FromSvgOptions {
            dpi: Double(DEFAULT_DPI_BITS),
            scale: Double(DEFAULT_SCALE_BITS),
            unlimited: false,
            flags: 0,
            memory: false,
            access: VipsAccess::Random,
            fail_on: VipsFailOn::Never,
            revalidate: false,
        }
    }
}

} // verus!
