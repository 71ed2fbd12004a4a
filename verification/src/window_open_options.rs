use vstd::prelude::*;

use crate::gl::GlConfig;
use crate::size::Size;

verus! {

/// The raw encoding of the default logical width, eight hundred units.
pub const DEFAULT_WIDTH_BITS: u64 = 0x4089_0000_0000_0000;

/// The raw encoding of the default logical height, six hundred units.
pub const DEFAULT_HEIGHT_BITS: u64 = 0x4082_C000_0000_0000;

/// The dpi scaling policy of the window.
#[derive(Debug, Clone, Copy, PartialEq, Eq, Structural)]
pub enum WindowScalePolicy {
    /// Use the system's dpi scale factor.
    SystemScaleFactor,
    /// Use the given dpi scale factor, carried as the raw 64-bit encoding of
    /// the host's floating-point factor, where a factor of one corresponds
    /// to 96 dpi. The encoding is stored uninterpreted, so a non-positive
    /// factor is a caller error that this layer does not detect.
    ScaleFactor(u64),
}

/// Bit position of the flag for a window with a close button.
pub const CLOSABLE_BIT: u64 = 0;

/// Bit position of the flag for a window with a title bar.
pub const TITLED_BIT: u64 = 1;

/// Bit position of the flag for a window that can be minimized.
pub const MINIATURIZABLE_BIT: u64 = 2;

/// Bit position of the flag for a window the user can resize.
pub const RESIZABLE_BIT: u64 = 3;

/// Bit position of the flag for a window draggable by its background.
pub const TEXTURED_BIT: u64 = 8;

/// Bit position of the flag for a window that paints into its title area.
pub const UNIFIED_TITLEBAR_BIT: u64 = 12;

/// Bit position of the flag for a window eligible for full screen.
pub const FULL_SCREEN_BIT: u64 = 14;

/// Bit position of the flag for a full-size content view.
pub const FULL_SIZE_BIT: u64 = 15;

/// The bit-set `bits` with the bit at `pos` set to `value` and every other
/// bit kept as it was.
pub open spec fn with_bit(bits: u64, pos: u64, value: bool) -> u64 {
    if value {
        bits | (1u64 << pos)
    } else {
        bits & !(1u64 << pos)
    }
}

/// True when the bit at `pos` is set in `bits`.
pub open spec fn bit_set(bits: u64, pos: u64) -> bool {
    bits & (1u64 << pos) != 0
}

/// The default style bit-set: titled, closable and miniaturizable, with
/// every other bit clear.
pub open spec fn default_style_bits() -> u64 {
    (1u64 << TITLED_BIT) | (1u64 << CLOSABLE_BIT) | (1u64 << MINIATURIZABLE_BIT)
}

/// Represents window style flags specific to Mac OS.
///
/// A single packed 64-bit bit-set with value semantics: each named
/// capability occupies exactly one bit, and unnamed bits stay clear except
/// where a named toggle sets them.
#[derive(Copy, Clone, Debug, Eq, PartialEq, Structural)]
pub struct MacOSWindowOptions {
    value: u64,
}

/// The value `MacOSWindowOptions::default()` returns.
pub closed spec fn spec_default_mac_options() -> MacOSWindowOptions {
    MacOSWindowOptions { value: default_style_bits() }
}

impl MacOSWindowOptions {
    /// The packed bit-set, as the contracts see it.
    pub closed spec fn bits(&self) -> u64 {
        self.value
    }

    /// The raw 64-bit value, the one export from which the window-creation
    /// subsystem derives the platform's native style mask.
    pub fn raw_value(&self) -> (r: u64)
        ensures
            r == self.bits(),
    {
        self.value
    }

    /// Sets or clears the bit at `pos`, keeping every other bit.
    fn set_bit(self, pos: u64, value: bool) -> (r: Self)
        requires
            pos < 64,
        ensures
            r.bits() == with_bit(self.bits(), pos, value),
    {
        let new_value: u64 = if value {
            self.value | (1u64 << pos)
        } else {
            self.value & !(1u64 << pos)
        };
        MacOSWindowOptions { value: new_value }
    }

    /// Removes all default or currently present style flags.
    ///
    /// This is the one toggle that does not compose: whatever the prior
    /// state, the result is the empty bit-set.
    pub fn borderless(self) -> (r: Self)
        ensures
            r.bits() == 0,
    {
        MacOSWindowOptions { value: 0 }
    }

    /// Window has a close button.
    pub fn closable(self, value: bool) -> (r: Self)
        ensures
            r.bits() == with_bit(self.bits(), CLOSABLE_BIT, value),
    {
        self.set_bit(CLOSABLE_BIT, value)
    }

    /// Window has a title bar.
    pub fn titled(self, value: bool) -> (r: Self)
        ensures
            r.bits() == with_bit(self.bits(), TITLED_BIT, value),
    {
        self.set_bit(TITLED_BIT, value)
    }

    /// Window can be minimized.
    pub fn miniaturizable(self, value: bool) -> (r: Self)
        ensures
            r.bits() == with_bit(self.bits(), MINIATURIZABLE_BIT, value),
    {
        self.set_bit(MINIATURIZABLE_BIT, value)
    }

    /// Window can be resized.
    pub fn resizable(self, value: bool) -> (r: Self)
        ensures
            r.bits() == with_bit(self.bits(), RESIZABLE_BIT, value),
    {
        self.set_bit(RESIZABLE_BIT, value)
    }

    /// Window can be dragged by its background.
    pub fn textured(self, value: bool) -> (r: Self)
        ensures
            r.bits() == with_bit(self.bits(), TEXTURED_BIT, value),
    {
        self.set_bit(TEXTURED_BIT, value)
    }

    /// The window paints into its title area.
    pub fn unified_titlebar(self, value: bool) -> (r: Self)
        ensures
            r.bits() == with_bit(self.bits(), UNIFIED_TITLEBAR_BIT, value),
    {
        self.set_bit(UNIFIED_TITLEBAR_BIT, value)
    }

    /// Create a full screen window.
    pub fn full_screen(self, value: bool) -> (r: Self)
        ensures
            r.bits() == with_bit(self.bits(), FULL_SCREEN_BIT, value),
    {
        self.set_bit(FULL_SCREEN_BIT, value)
    }

    /// The content extends to the full window bounds.
    pub fn full_size(self, value: bool) -> (r: Self)
        ensures
            r.bits() == with_bit(self.bits(), FULL_SIZE_BIT, value),
    {
        self.set_bit(FULL_SIZE_BIT, value)
    }
}

impl Default for MacOSWindowOptions {
    /// The default style flags: titled, closable and miniaturizable.
    fn default() -> (r: Self)
        ensures
            r == spec_default_mac_options(),
            r.bits() == default_style_bits(),
    {
        let r = (MacOSWindowOptions { value: 0 }).titled(true).closable(true).miniaturizable(
            true,
        );
        proof {
            assert(with_bit(
                with_bit(with_bit(0u64, TITLED_BIT, true), CLOSABLE_BIT, true),
                MINIATURIZABLE_BIT,
                true,
            ) == default_style_bits()) by (bit_vector);
        }
        r
    }
}

/// The default style bit-set has exactly the closable, titled and
/// miniaturizable bits set: every other bit of it is clear.
pub proof fn lemma_default_style_bits_exact()
    ensures
        bit_set(default_style_bits(), CLOSABLE_BIT),
        bit_set(default_style_bits(), TITLED_BIT),
        bit_set(default_style_bits(), MINIATURIZABLE_BIT),
        forall|pos: u64|
            pos < 64 && pos != CLOSABLE_BIT && pos != TITLED_BIT && pos != MINIATURIZABLE_BIT
                ==> !#[trigger] bit_set(default_style_bits(), pos),
{
    assert(bit_set(default_style_bits(), CLOSABLE_BIT)) by (bit_vector);
    assert(bit_set(default_style_bits(), TITLED_BIT)) by (bit_vector);
    assert(bit_set(default_style_bits(), MINIATURIZABLE_BIT)) by (bit_vector);
    assert(forall|pos: u64|
        pos < 64 && pos != CLOSABLE_BIT && pos != TITLED_BIT && pos != MINIATURIZABLE_BIT
            ==> !#[trigger] bit_set(default_style_bits(), pos)) by (bit_vector);
}

/// A toggle and then the opposite toggle restore the original bit-set,
/// provided the first toggle changed the bit: where the bit already had the
/// first toggle's value, the pair instead leaves the bit at the opposite
/// value, so the original is only restored when its bit equals the second
/// toggle's value.
pub proof fn lemma_toggle_involution(bits: u64, pos: u64, value: bool)
    requires
        pos < 64,
        bit_set(bits, pos) == !value,
    ensures
        with_bit(with_bit(bits, pos, value), pos, !value) == bits,
{
    assert(with_bit(with_bit(bits, pos, value), pos, !value) == bits) by (bit_vector)
        requires
            pos < 64,
            bit_set(bits, pos) == !value,
    ;
}

/// Toggles of two distinct bits commute: applied in either order to the
/// same bit-set, they yield the same final bit-set.
pub proof fn lemma_toggle_commutes(bits: u64, pos1: u64, value1: bool, pos2: u64, value2: bool)
    requires
        pos1 < 64,
        pos2 < 64,
        pos1 != pos2,
    ensures
        with_bit(with_bit(bits, pos1, value1), pos2, value2) == with_bit(
            with_bit(bits, pos2, value2),
            pos1,
            value1,
        ),
{
    assert(with_bit(with_bit(bits, pos1, value1), pos2, value2) == with_bit(
        with_bit(bits, pos2, value2),
        pos1,
        value1,
    )) by (bit_vector)
        requires
            pos1 < 64,
            pos2 < 64,
            pos1 != pos2,
    ;
}

/// The options for opening a new window.
#[derive(Clone, Debug, PartialEq)]
pub struct WindowOpenOptions {
    /// The display title of the window.
    pub title: String,
    /// The logical size of the window.
    ///
    /// These dimensions will be scaled by the scaling policy specified in
    /// `scale`. Mouse position will be passed back as logical coordinates.
    pub size: Size,
    /// The dpi scaling policy.
    pub scale: WindowScalePolicy,
    /// If present, an OpenGL context will be created for this window.
    pub gl_config: Option<GlConfig>,
    /// Mac OS specific style flags; absent until the mac-os builder first
    /// touches them.
    pub mac_os_options: Option<MacOSWindowOptions>,
}

/// The stored mac-os flags, or the default style flags where none were
/// stored yet.
pub open spec fn mac_options_or_default(o: Option<MacOSWindowOptions>) -> MacOSWindowOptions {
    match o {
        Some(m) => m,
        None => spec_default_mac_options(),
    }
}

/// What `with_title` promises: the new title, every other field kept.
pub open spec fn with_title_post(
    o: WindowOpenOptions,
    title: Seq<char>,
    r: WindowOpenOptions,
) -> bool {
    &&& r.title@ == title
    &&& r.size == o.size
    &&& r.scale == o.scale
    &&& r.gl_config == o.gl_config
    &&& r.mac_os_options == o.mac_os_options
}

/// What `with_size` promises: the new size, every other field kept.
pub open spec fn with_size_post(o: WindowOpenOptions, size: Size, r: WindowOpenOptions) -> bool {
    &&& r.title@ == o.title@
    &&& r.size == size
    &&& r.scale == o.scale
    &&& r.gl_config == o.gl_config
    &&& r.mac_os_options == o.mac_os_options
}

/// What `with_scale_policy` promises: the new policy, every other field
/// kept.
pub open spec fn with_scale_policy_post(
    o: WindowOpenOptions,
    policy: WindowScalePolicy,
    r: WindowOpenOptions,
) -> bool {
    &&& r.title@ == o.title@
    &&& r.size == o.size
    &&& r.scale == policy
    &&& r.gl_config == o.gl_config
    &&& r.mac_os_options == o.mac_os_options
}

/// What `with_gl_config` promises: the new rendering-context
/// configuration, every other field kept.
pub open spec fn with_gl_config_post(
    o: WindowOpenOptions,
    gl_config: Option<GlConfig>,
    r: WindowOpenOptions,
) -> bool {
    &&& r.title@ == o.title@
    &&& r.size == o.size
    &&& r.scale == o.scale
    &&& r.gl_config == gl_config
    &&& r.mac_os_options == o.mac_os_options
}

/// Field-by-field equality of two option records, the title compared by
/// its characters.
pub open spec fn options_fields_equal(a: WindowOpenOptions, b: WindowOpenOptions) -> bool {
    &&& a.title@ == b.title@
    &&& a.size == b.size
    &&& a.scale == b.scale
    &&& a.gl_config == b.gl_config
    &&& a.mac_os_options == b.mac_os_options
}

impl Default for WindowOpenOptions {
    /// The default configuration: the stock title, a size of eight hundred
    /// by six hundred logical units, the system's scale factor, and neither
    /// a rendering-context configuration nor mac-os flags.
    fn default() -> (r: Self)
        ensures
            r.title@ == "Baseview window"@,
            r.size == (Size { width_bits: DEFAULT_WIDTH_BITS, height_bits: DEFAULT_HEIGHT_BITS }),
            r.scale is SystemScaleFactor,
            r.gl_config is None,
            r.mac_os_options is None,
    {
        WindowOpenOptions {
            title: "Baseview window".to_owned(),
            size: Size::new(DEFAULT_WIDTH_BITS, DEFAULT_HEIGHT_BITS),
            scale: WindowScalePolicy::SystemScaleFactor,
            gl_config: None,
            mac_os_options: None,
        }
    }
}

impl WindowOpenOptions {
    /// Replaces the title, keeping every other field.
    pub fn with_title(self, title: &str) -> (r: Self)
        ensures
            with_title_post(self, title@, r),
    {
        WindowOpenOptions { title: title.to_owned(), ..self }
    }

    /// Replaces the size, keeping every other field.
    pub fn with_size(self, size: Size) -> (r: Self)
        ensures
            with_size_post(self, size, r),
    {
        WindowOpenOptions { size, ..self }
    }

    /// Replaces the scaling policy, keeping every other field.
    pub fn with_scale_policy(self, policy: WindowScalePolicy) -> (r: Self)
        ensures
            with_scale_policy_post(self, policy, r),
    {
        WindowOpenOptions { scale: policy, ..self }
    }

    /// Replaces the rendering-context configuration, keeping every other
    /// field.
    pub fn with_gl_config(self, gl_config: Option<GlConfig>) -> (r: Self)
        ensures
            with_gl_config_post(self, gl_config, r),
    {
        WindowOpenOptions { gl_config, ..self }
    }

    /// Configure mac-os specific window flags.
    ///
    /// The transform is handed the stored flags, or the default style flags
    /// where none were stored yet, and its result is stored; every other
    /// field is kept. Callers thus edit flags without knowing whether any
    /// were set before.
    pub fn with_mac_os_options<F: FnOnce(MacOSWindowOptions) -> MacOSWindowOptions>(
        self,
        f: F,
    ) -> (r: Self)
        requires
            call_requires(f, (mac_options_or_default(self.mac_os_options),)),
        ensures
            r.title@ == self.title@,
            r.size == self.size,
            r.scale == self.scale,
            r.gl_config == self.gl_config,
            r.mac_os_options is Some,
            call_ensures(
                f,
                (mac_options_or_default(self.mac_os_options),),
                r.mac_os_options->Some_0,
            ),
    {
        let flags = match self.mac_os_options {
            Some(m) => m,
            None => Default::default(),
        };
        WindowOpenOptions { mac_os_options: Some(f(flags)), ..self }
    }

    /// The packed style bits from which the window-creation subsystem
    /// derives the platform's native style mask: the stored mac-os flags,
    /// or the default style flags where none were set. Folding these bits
    /// into the native toolkit's mask type belongs to that subsystem, not
    /// to this layer.
    pub fn style_mask_bits(&self) -> (r: u64)
        ensures
            r == mac_options_or_default(self.mac_os_options).bits(),
    {
        match self.mac_os_options {
            Some(m) => m.raw_value(),
            None => {
                let d: MacOSWindowOptions = Default::default();
                d.raw_value()
            },
        }
    }
}

/// Editing the flags of options that hold none yet hands the transform the
/// default style flags: `with_mac_os_options` applied to such options
/// behaves exactly as if the flags had first been set to
/// `MacOSWindowOptions::default()` and the transform then applied to the
/// stored value.
pub proof fn lemma_mac_options_default_first()
    ensures
        mac_options_or_default(None::<MacOSWindowOptions>) == spec_default_mac_options(),
        mac_options_or_default(Some(spec_default_mac_options())) == spec_default_mac_options(),
        spec_default_mac_options().bits() == default_style_bits(),
{
}

/// A sequence of builder steps determines its result field by field: any
/// two applications of the same steps, with the same arguments and from the
/// same starting options, agree on every field. Chaining the calls in one
/// expression and applying them as separate statements in the same order
/// therefore yield identical values.
pub proof fn lemma_builder_sequence_determined(
    o: WindowOpenOptions,
    title: Seq<char>,
    size: Size,
    policy: WindowScalePolicy,
    a1: WindowOpenOptions,
    a2: WindowOpenOptions,
    a3: WindowOpenOptions,
    b1: WindowOpenOptions,
    b2: WindowOpenOptions,
    b3: WindowOpenOptions,
)
    requires
        with_title_post(o, title, a1),
        with_size_post(a1, size, a2),
        with_scale_policy_post(a2, policy, a3),
        with_title_post(o, title, b1),
        with_size_post(b1, size, b2),
        with_scale_policy_post(b2, policy, b3),
    ensures
        options_fields_equal(a3, b3),
{
}

} // verus!
