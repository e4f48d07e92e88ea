//! The colour model: percentages, HSL colours, light/dark pairs and
//! base/hover/active triples.

use vstd::prelude::*;

verus! {

/// The largest value a percentage may take.
pub const PERCENT_MAX: u8 = 100;

/// `p + q`, held at 100.
pub open spec fn capped_sum(p: int, q: int) -> int {
    if p + q > 100 {
        100
    } else {
        p + q
    }
}

/// `p - q`, held at 0.
pub open spec fn capped_difference(p: int, q: int) -> int {
    if p - q < 0 {
        0
    } else {
        p - q
    }
}

/// `p + q` on the cycle `0, 1, .., 100, 0, ..`.
pub open spec fn cyclic_sum(p: int, q: int) -> int {
    (p + q) % 101
}

/// `p - q` on the cycle `0, 1, .., 100, 0, ..`; never negative.
pub open spec fn cyclic_difference(p: int, q: int) -> int {
    (p - q) % 101
}

/// Adds `q` to `p`; the result stops at 100.
pub fn increase_cap(p: u8, q: u8) -> (r: u8)
    ensures
        r == capped_sum(p as int, q as int),
        r <= 100,
{
    if p >= PERCENT_MAX || q >= PERCENT_MAX - p {
        PERCENT_MAX
    } else {
        p + q
    }
}

/// Subtracts `q` from `p`; the result stops at 0.
pub fn decrease_cap(p: u8, q: u8) -> (r: u8)
    ensures
        r == capped_difference(p as int, q as int),
        r <= p,
{
    if p > q {
        p - q
    } else {
        0
    }
}

/// Adds `q` to `p` and wraps past 100 back to 0.
pub fn increase_cycle(p: u8, q: u8) -> (r: u8)
    ensures
        r == cyclic_sum(p as int, q as int),
        r <= 100,
{
    let sum: u16 = p as u16 + q as u16;
    (sum % 101) as u8
}

/// Subtracts `q` from `p` and wraps below 0 back to 100.
pub fn decrease_cycle(p: u8, q: u8) -> (r: u8)
    ensures
        r == cyclic_difference(p as int, q as int),
        r <= 100,
{
    let back: u16 = (q % 101) as u16;
    let shifted: u16 = p as u16 + 101 - back;
    (shifted % 101) as u8
}

/// The four ways a percentage can be moved by an amount.
#[derive(Clone, Copy, Debug, PartialEq, Eq, Structural)]
pub enum Adjustment {
    /// Add, and stop at 100.
    IncreaseCap,
    /// Subtract, and stop at 0.
    DecreaseCap,
    /// Add, and wrap past 100 back to 0.
    IncreaseCycle,
    /// Subtract, and wrap below 0 back to 100.
    DecreaseCycle,
}

/// The three percentages of a colour that every adjustment applies to.
#[derive(Clone, Copy, Debug, PartialEq, Eq, Structural)]
pub enum Channel {
    Sat,
    Light,
    Alpha,
}

/// What `op` makes of the percentage `p` when moved by `q`.
pub open spec fn adjusted(op: Adjustment, p: int, q: int) -> int {
    match op {
        Adjustment::IncreaseCap => capped_sum(p, q),
        Adjustment::DecreaseCap => capped_difference(p, q),
        Adjustment::IncreaseCycle => cyclic_sum(p, q),
        Adjustment::DecreaseCycle => cyclic_difference(p, q),
    }
}

/// Moves the percentage `p` by `q` in the way `op` names.
pub fn adjust_percent(op: Adjustment, p: u8, q: u8) -> (r: u8)
    ensures
        r == adjusted(op, p as int, q as int),
        p <= 100 ==> r <= 100,
{
    match op {
        Adjustment::IncreaseCap => increase_cap(p, q),
        Adjustment::DecreaseCap => decrease_cap(p, q),
        Adjustment::IncreaseCycle => increase_cycle(p, q),
        Adjustment::DecreaseCycle => decrease_cycle(p, q),
    }
}

/// A colour as four percentages: the mathematical value of an [`HSLColor`].
pub struct ColorModel {
    pub hue: int,
    pub sat: int,
    pub light: int,
    pub alpha: int,
}

impl ColorModel {
    /// Every component lies in `0..=100`.
    pub open spec fn valid(self) -> bool {
        &&& 0 <= self.hue <= 100
        &&& 0 <= self.sat <= 100
        &&& 0 <= self.light <= 100
        &&& 0 <= self.alpha <= 100
    }

    /// The component that `channel` names.
    pub open spec fn channel(self, channel: Channel) -> int {
        match channel {
            Channel::Sat => self.sat,
            Channel::Light => self.light,
            Channel::Alpha => self.alpha,
        }
    }

    /// This colour with the component that `channel` names replaced by `value`.
    pub open spec fn with_channel(self, channel: Channel, value: int) -> ColorModel {
        match channel {
            Channel::Sat => ColorModel { sat: value, ..self },
            Channel::Light => ColorModel { light: value, ..self },
            Channel::Alpha => ColorModel { alpha: value, ..self },
        }
    }

    /// This colour with one component moved by `percent`.
    pub open spec fn adjust(self, channel: Channel, op: Adjustment, percent: int) -> ColorModel {
        self.with_channel(channel, adjusted(op, self.channel(channel), percent))
    }

    /// This colour with the hue moved forward on its cycle.
    pub open spec fn increase_hue(self, percent: int) -> ColorModel {
        ColorModel { hue: cyclic_sum(self.hue, percent), ..self }
    }

    /// This colour with the hue moved backward on its cycle.
    pub open spec fn decrease_hue(self, percent: int) -> ColorModel {
        ColorModel { hue: cyclic_difference(self.hue, percent), ..self }
    }

    /// This colour with its lightness mirrored about 50. A lightness above
    /// 100 has no mirror image in range; it wraps as byte arithmetic does.
    pub open spec fn max_contrast(self) -> ColorModel {
        ColorModel { light: (100 - self.light) % 256, ..self }
    }

    /// The grey on the far side of this colour: no saturation, lightness
    /// moved on by 100 around its cycle, and 50 more opacity.
    pub open spec fn desat_opposite(self) -> ColorModel {
        self.adjust(Channel::Sat, Adjustment::DecreaseCap, 100).adjust(
            Channel::Light,
            Adjustment::IncreaseCycle,
            100,
        ).adjust(Channel::Alpha, Adjustment::IncreaseCap, 50)
    }

    /// This colour with its opacity replaced.
    pub open spec fn set_alpha(self, val: int) -> ColorModel {
        ColorModel { alpha: val, ..self }
    }
}

/// A colour given by hue, saturation, lightness and opacity, each a
/// percentage. Values are never changed in place: every operation returns a
/// new colour.
#[derive(Clone, Copy, Debug, PartialEq, Eq, Structural)]
pub struct HSLColor {
    hue: u8,
    sat: u8,
    light: u8,
    alpha: u8,
}

impl View for HSLColor {
    type V = ColorModel;

    closed spec fn view(&self) -> ColorModel {
        ColorModel {
            hue: self.hue as int,
            sat: self.sat as int,
            light: self.light as int,
            alpha: self.alpha as int,
        }
    }
}

impl HSLColor {
    /// A colour from its four percentages.
    pub fn new(hue: u8, sat: u8, light: u8, alpha: u8) -> (c: Self)
        ensures
            c@ == (ColorModel { hue: hue as int, sat: sat as int, light: light as int, alpha: alpha as int }),
    {
        HSLColor { hue, sat, light, alpha }
    }

    pub fn hue(&self) -> (r: u8)
        ensures
            r == self@.hue,
    {
        self.hue
    }

    pub fn sat(&self) -> (r: u8)
        ensures
            r == self@.sat,
    {
        self.sat
    }

    pub fn light(&self) -> (r: u8)
        ensures
            r == self@.light,
    {
        self.light
    }

    pub fn alpha(&self) -> (r: u8)
        ensures
            r == self@.alpha,
    {
        self.alpha
    }

    /// Moves one of saturation, lightness and opacity by `percent`.
    pub fn adjust(self, channel: Channel, op: Adjustment, percent: u8) -> (c: Self)
        ensures
            c@ == self@.adjust(channel, op, percent as int),
            self@.valid() ==> c@.valid(),
    {
        match channel {
            Channel::Sat => HSLColor {
                hue: self.hue,
                sat: adjust_percent(op, self.sat, percent),
                light: self.light,
                alpha: self.alpha,
            },
            Channel::Light => HSLColor {
                hue: self.hue,
                sat: self.sat,
                light: adjust_percent(op, self.light, percent),
                alpha: self.alpha,
            },
            Channel::Alpha => HSLColor {
                hue: self.hue,
                sat: self.sat,
                light: self.light,
                alpha: adjust_percent(op, self.alpha, percent),
            },
        }
    }

    /// Moves the hue forward by `percent`; past 100 it starts again at 0.
    pub fn increase_hue(self, percent: u8) -> (c: Self)
        ensures
            c@ == self@.increase_hue(percent as int),
            self@.valid() ==> c@.valid(),
    {
        HSLColor {
            hue: increase_cycle(self.hue, percent),
            sat: self.sat,
            light: self.light,
            alpha: self.alpha,
        }
    }

    /// Moves the hue backward by `percent`; below 0 it starts again at 100.
    pub fn decrease_hue(self, percent: u8) -> (c: Self)
        ensures
            c@ == self@.decrease_hue(percent as int),
            self@.valid() ==> c@.valid(),
    {
        HSLColor {
            hue: decrease_cycle(self.hue, percent),
            sat: self.sat,
            light: self.light,
            alpha: self.alpha,
        }
    }

    /// Mirrors the lightness about 50 and keeps everything else.
    pub fn max_contrast(self) -> (c: Self)
        ensures
            c@ == self@.max_contrast(),
            self@.valid() ==> c@.valid() && c@.light == 100 - self@.light,
    {
        let light: u8 = if self.light <= PERCENT_MAX {
            PERCENT_MAX - self.light
        } else {
            (u8::MAX - self.light) + (PERCENT_MAX + 1)
        };
        HSLColor { hue: self.hue, sat: self.sat, light, alpha: self.alpha }
    }

    /// Removes the saturation, moves the lightness on by 100 around its
    /// cycle and adds 50 to the opacity.
    pub fn desat_opposite(self) -> (c: Self)
        ensures
            c@ == self@.desat_opposite(),
            self@.valid() ==> c@.valid(),
    {
        self.adjust(Channel::Sat, Adjustment::DecreaseCap, 100).adjust(
            Channel::Light,
            Adjustment::IncreaseCycle,
            100,
        ).adjust(Channel::Alpha, Adjustment::IncreaseCap, 50)
    }

    /// Replaces the opacity.
    pub fn set_alpha(self, val: u8) -> (c: Self)
        ensures
            c@ == self@.set_alpha(val as int),
            self@.valid() && val <= 100 ==> c@.valid(),
    {
        HSLColor { hue: self.hue, sat: self.sat, light: self.light, alpha: val }
    }

    /// Two colours with the same four percentages are the same colour.
    pub proof fn lemma_view_determines_color(a: HSLColor, b: HSLColor)
        requires
            a@ == b@,
        ensures
            a == b,
    {
    }
}

/// The colour of a pair that an operation applies to.
#[derive(Clone, Copy, Debug, PartialEq, Eq, Structural)]
pub enum Branch {
    Light,
    Dark,
}

/// The colour of a pair that is shown when dark mode is off.
#[derive(Clone, Copy, Debug, PartialEq, Eq, Structural)]
enum LightModeDefault {
    Light,
    Dark,
}

/// A light colour, a dark colour, and whether the two have traded places:
/// the mathematical value of a [`LightDark`].
pub struct LightDarkModel {
    pub light: ColorModel,
    pub dark: ColorModel,
    pub reversed: bool,
}

impl LightDarkModel {
    /// Both colours are valid.
    pub open spec fn valid(self) -> bool {
        self.light.valid() && self.dark.valid()
    }

    /// The colour that `branch` names.
    pub open spec fn branch(self, branch: Branch) -> ColorModel {
        match branch {
            Branch::Light => self.light,
            Branch::Dark => self.dark,
        }
    }

    /// This pair with the colour that `branch` names replaced by `color`.
    pub open spec fn with_branch(self, branch: Branch, color: ColorModel) -> LightDarkModel {
        match branch {
            Branch::Light => LightDarkModel { light: color, ..self },
            Branch::Dark => LightDarkModel { dark: color, ..self },
        }
    }

    /// This pair with one component of one colour moved by `percent`.
    pub open spec fn adjust(
        self,
        branch: Branch,
        channel: Channel,
        op: Adjustment,
        percent: int,
    ) -> LightDarkModel {
        self.with_branch(branch, self.branch(branch).adjust(channel, op, percent))
    }

    /// This pair with the hue of one colour moved forward.
    pub open spec fn increase_hue(self, branch: Branch, percent: int) -> LightDarkModel {
        self.with_branch(branch, self.branch(branch).increase_hue(percent))
    }

    /// This pair with the hue of one colour moved backward.
    pub open spec fn decrease_hue(self, branch: Branch, percent: int) -> LightDarkModel {
        self.with_branch(branch, self.branch(branch).decrease_hue(percent))
    }

    /// The colour in effect. A pair that is not reversed shows its dark
    /// colour in dark mode and its light colour otherwise; a reversed pair
    /// shows the other one.
    pub open spec fn resolve(self, dark_mode: bool) -> ColorModel {
        match (dark_mode, self.reversed) {
            (true, false) => self.dark,
            (true, true) => self.light,
            (false, false) => self.light,
            (false, true) => self.dark,
        }
    }

    /// The light colour mirrored, and the dark colour replaced by the mirror
    /// image of that: the light colour as it was.
    pub open spec fn max_contrast(self) -> LightDarkModel {
        LightDarkModel {
            light: self.light.max_contrast(),
            dark: self.light.max_contrast().max_contrast(),
            ..self
        }
    }

    /// Both colours turned into their opposite grey.
    pub open spec fn desat_opposite(self) -> LightDarkModel {
        LightDarkModel {
            light: self.light.desat_opposite(),
            dark: self.dark.desat_opposite(),
            ..self
        }
    }

    /// The same two colours with their roles traded.
    pub open spec fn reverse(self) -> LightDarkModel {
        LightDarkModel { reversed: !self.reversed, ..self }
    }

    /// Both colours with their opacity replaced.
    pub open spec fn set_alpha(self, val: int) -> LightDarkModel {
        LightDarkModel {
            light: self.light.set_alpha(val),
            dark: self.dark.set_alpha(val),
            ..self
        }
    }

    /// The pair that shows nothing in either mode.
    pub open spec fn transparent() -> LightDarkModel {
        LightDarkModel {
            light: ColorModel { hue: 0, sat: 0, light: 0, alpha: 0 },
            dark: ColorModel { hue: 0, sat: 0, light: 0, alpha: 0 },
            reversed: false,
        }
    }
}

/// One semantic colour in its light-theme and its dark-theme variant.
#[derive(Clone, Copy, Debug, PartialEq, Eq, Structural)]
pub struct LightDark {
    pub light: HSLColor,
    pub dark: HSLColor,
    light_mode_default: LightModeDefault,
}

impl View for LightDark {
    type V = LightDarkModel;

    closed spec fn view(&self) -> LightDarkModel {
        LightDarkModel {
            light: self.light@,
            dark: self.dark@,
            reversed: self.light_mode_default == LightModeDefault::Dark,
        }
    }
}

impl LightDark {
    /// The pair of `light` and `dark`, not reversed.
    pub fn new(light: HSLColor, dark: HSLColor) -> (pair: Self)
        ensures
            pair@ == (LightDarkModel { light: light@, dark: dark@, reversed: false }),
    {
        LightDark { light, dark, light_mode_default: LightModeDefault::Light }
    }

    /// The light-theme colour.
    pub fn light(&self) -> (c: HSLColor)
        ensures
            c@ == self@.light,
    {
        self.light
    }

    /// The dark-theme colour.
    pub fn dark(&self) -> (c: HSLColor)
        ensures
            c@ == self@.dark,
    {
        self.dark
    }

    /// Moves one of saturation, lightness and opacity of one colour by
    /// `percent`.
    pub fn adjust(self, branch: Branch, channel: Channel, op: Adjustment, percent: u8) -> (pair:
        Self)
        ensures
            pair@ == self@.adjust(branch, channel, op, percent as int),
            self@.valid() ==> pair@.valid(),
    {
        match branch {
            Branch::Light => LightDark {
                light: self.light.adjust(channel, op, percent),
                dark: self.dark,
                light_mode_default: self.light_mode_default,
            },
            Branch::Dark => LightDark {
                light: self.light,
                dark: self.dark.adjust(channel, op, percent),
                light_mode_default: self.light_mode_default,
            },
        }
    }

    /// Moves the hue of the dark colour forward around its cycle.
    pub fn dark_increase_hue(self, change: u8) -> (pair: Self)
        ensures
            pair@ == self@.increase_hue(Branch::Dark, change as int),
            self@.valid() ==> pair@.valid(),
    {
        LightDark {
            light: self.light,
            dark: self.dark.increase_hue(change),
            light_mode_default: self.light_mode_default,
        }
    }

    /// Moves the hue of the dark colour backward around its cycle.
    pub fn dark_decrease_hue(self, change: u8) -> (pair: Self)
        ensures
            pair@ == self@.decrease_hue(Branch::Dark, change as int),
            self@.valid() ==> pair@.valid(),
    {
        LightDark {
            light: self.light,
            dark: self.dark.decrease_hue(change),
            light_mode_default: self.light_mode_default,
        }
    }

    /// Moves the hue of the light colour forward around its cycle.
    pub fn light_increase_hue(self, change: u8) -> (pair: Self)
        ensures
            pair@ == self@.increase_hue(Branch::Light, change as int),
            self@.valid() ==> pair@.valid(),
    {
        LightDark {
            light: self.light.increase_hue(change),
            dark: self.dark,
            light_mode_default: self.light_mode_default,
        }
    }

    /// Moves the hue of the light colour backward around its cycle.
    pub fn light_decrease_hue(self, change: u8) -> (pair: Self)
        ensures
            pair@ == self@.decrease_hue(Branch::Light, change as int),
            self@.valid() ==> pair@.valid(),
    {
        LightDark {
            light: self.light.decrease_hue(change),
            dark: self.dark,
            light_mode_default: self.light_mode_default,
        }
    }

    /// The colour in effect under the given dark-mode setting.
    pub fn get_base(self, dark_mode: bool) -> (c: HSLColor)
        ensures
            c@ == self@.resolve(dark_mode),
    {
        match (dark_mode, self.light_mode_default) {
            (true, LightModeDefault::Light) => self.dark,
            (true, LightModeDefault::Dark) => self.light,
            (false, LightModeDefault::Light) => self.light,
            (false, LightModeDefault::Dark) => self.dark,
        }
    }

    /// Mirrors the lightness of the light colour, and puts the mirror image
    /// of the result in place of the dark colour.
    pub fn max_contrast(self) -> (pair: Self)
        ensures
            pair@ == self@.max_contrast(),
            self@.light.valid() ==> pair@.valid() && pair@.dark == self@.light,
    {
        let light = self.light.max_contrast();
        let dark = light.max_contrast();
        LightDark { light, dark, light_mode_default: self.light_mode_default }
    }

    /// Turns both colours into their opposite grey.
    pub fn desat_opposite(self) -> (pair: Self)
        ensures
            pair@ == self@.desat_opposite(),
            self@.valid() ==> pair@.valid(),
    {
        LightDark {
            light: self.light.desat_opposite(),
            dark: self.dark.desat_opposite(),
            light_mode_default: self.light_mode_default,
        }
    }

    /// Trades the roles of the two colours.
    pub fn reverse(self) -> (pair: Self)
        ensures
            pair@ == self@.reverse(),
    {
        let light_mode_default = match self.light_mode_default {
            LightModeDefault::Light => LightModeDefault::Dark,
            LightModeDefault::Dark => LightModeDefault::Light,
        };
        LightDark { light: self.light, dark: self.dark, light_mode_default }
    }

    /// The pair that shows nothing in either mode.
    pub fn transparent() -> (pair: Self)
        ensures
            pair@ == LightDarkModel::transparent(),
    {
        LightDark {
            light: HSLColor::new(0, 0, 0, 0),
            dark: HSLColor::new(0, 0, 0, 0),
            light_mode_default: LightModeDefault::Light,
        }
    }

    /// Replaces the opacity of both colours.
    pub fn set_alpha(self, val: u8) -> (pair: Self)
        ensures
            pair@ == self@.set_alpha(val as int),
            self@.valid() && val <= 100 ==> pair@.valid(),
    {
        LightDark {
            light: self.light.set_alpha(val),
            dark: self.dark.set_alpha(val),
            light_mode_default: self.light_mode_default,
        }
    }

    /// Two pairs with the same colours and the same orientation are the same
    /// pair.
    pub proof fn lemma_view_determines_pair(a: LightDark, b: LightDark)
        requires
            a@ == b@,
        ensures
            a == b,
    {
        HSLColor::lemma_view_determines_color(a.light, b.light);
        HSLColor::lemma_view_determines_color(a.dark, b.dark);
    }
}

/// The shift in lightness that sets the hover colours apart from the base.
pub const HOVER_SHIFT: u8 = 10;

/// The shift in lightness that sets the active colours apart from the base.
pub const ACTIVE_SHIFT: u8 = 20;

/// Three pairs, for an element at rest, under the pointer and pressed: the
/// mathematical value of a [`ResponsiveColor`].
pub struct ResponsiveModel {
    pub base: LightDarkModel,
    pub hover: LightDarkModel,
    pub active: LightDarkModel,
}

impl ResponsiveModel {
    /// All three pairs are valid.
    pub open spec fn valid(self) -> bool {
        self.base.valid() && self.hover.valid() && self.active.valid()
    }

    /// `pair` with its dark colour made lighter and its light colour made
    /// darker by `percent`, each held in range.
    pub open spec fn shifted(pair: LightDarkModel, percent: int) -> LightDarkModel {
        pair.adjust(Branch::Dark, Channel::Light, Adjustment::IncreaseCap, percent).adjust(
            Branch::Light,
            Channel::Light,
            Adjustment::DecreaseCap,
            percent,
        )
    }

    /// The triple that follows from `pair`: itself at rest, shifted by 10
    /// under the pointer, shifted by 20 when pressed.
    pub open spec fn derive(pair: LightDarkModel) -> ResponsiveModel {
        ResponsiveModel {
            base: pair,
            hover: Self::shifted(pair, HOVER_SHIFT as int),
            active: Self::shifted(pair, ACTIVE_SHIFT as int),
        }
    }

    /// All three pairs with their roles traded.
    pub open spec fn reverse(self) -> ResponsiveModel {
        ResponsiveModel {
            base: self.base.reverse(),
            hover: self.hover.reverse(),
            active: self.active.reverse(),
        }
    }

    /// All three pairs with their opacity replaced.
    pub open spec fn set_alpha(self, val: int) -> ResponsiveModel {
        ResponsiveModel {
            base: self.base.set_alpha(val),
            hover: self.hover.set_alpha(val),
            active: self.active.set_alpha(val),
        }
    }
}

/// The colours of one interactive element: at rest, under the pointer, and
/// pressed.
#[derive(Clone, Copy, Debug, PartialEq, Eq, Structural)]
pub struct ResponsiveColor {
    pub base: LightDark,
    pub hover: LightDark,
    pub active: LightDark,
}

impl View for ResponsiveColor {
    type V = ResponsiveModel;

    open spec fn view(&self) -> ResponsiveModel {
        ResponsiveModel { base: self.base@, hover: self.hover@, active: self.active@ }
    }
}

impl ResponsiveColor {
    /// The triple that follows from `color` by the fixed rule: hover and
    /// active are `color` with the dark colour lighter and the light colour
    /// darker, by 10 and by 20.
    pub fn from_lightdark(color: LightDark) -> (triple: Self)
        ensures
            triple@ == ResponsiveModel::derive(color@),
            triple.base == color,
            color@.valid() ==> triple@.valid(),
    {
        ResponsiveColor {
            base: color,
            hover: color.adjust(
                Branch::Dark,
                Channel::Light,
                Adjustment::IncreaseCap,
                HOVER_SHIFT,
            ).adjust(Branch::Light, Channel::Light, Adjustment::DecreaseCap, HOVER_SHIFT),
            active: color.adjust(
                Branch::Dark,
                Channel::Light,
                Adjustment::IncreaseCap,
                ACTIVE_SHIFT,
            ).adjust(Branch::Light, Channel::Light, Adjustment::DecreaseCap, ACTIVE_SHIFT),
        }
    }

    /// Trades the roles of light and dark in all three pairs.
    pub fn reverse(self) -> (triple: Self)
        ensures
            triple@ == self@.reverse(),
    {
        ResponsiveColor {
            base: self.base.reverse(),
            hover: self.hover.reverse(),
            active: self.active.reverse(),
        }
    }

    /// Shows nothing at rest.
    pub fn disable_base(self) -> (triple: Self)
        ensures
            triple@ == (ResponsiveModel { base: LightDarkModel::transparent(), ..self@ }),
            triple.hover == self.hover,
            triple.active == self.active,
    {
        ResponsiveColor { base: LightDark::transparent(), hover: self.hover, active: self.active }
    }

    /// Shows nothing under the pointer.
    pub fn disable_hover(self) -> (triple: Self)
        ensures
            triple@ == (ResponsiveModel { hover: LightDarkModel::transparent(), ..self@ }),
            triple.base == self.base,
            triple.active == self.active,
    {
        ResponsiveColor { base: self.base, hover: LightDark::transparent(), active: self.active }
    }

    /// Shows nothing when pressed.
    pub fn disable_active(self) -> (triple: Self)
        ensures
            triple@ == (ResponsiveModel { active: LightDarkModel::transparent(), ..self@ }),
            triple.base == self.base,
            triple.hover == self.hover,
    {
        ResponsiveColor { base: self.base, hover: self.hover, active: LightDark::transparent() }
    }

    /// Looks under the pointer as it does at rest.
    pub fn set_hover_to_base(self) -> (triple: Self)
        ensures
            triple == (ResponsiveColor { hover: self.base, ..self }),
    {
        ResponsiveColor { base: self.base, hover: self.base, active: self.active }
    }

    /// Looks when pressed as it does under the pointer.
    pub fn reduce_active_to_hover(self) -> (triple: Self)
        ensures
            triple == (ResponsiveColor { active: self.hover, ..self }),
    {
        ResponsiveColor { base: self.base, hover: self.hover, active: self.hover }
    }

    /// Replaces the opacity of every colour.
    pub fn set_alpha(self, val: u8) -> (triple: Self)
        ensures
            triple@ == self@.set_alpha(val as int),
            self@.valid() && val <= 100 ==> triple@.valid(),
    {
        ResponsiveColor {
            base: self.base.set_alpha(val),
            hover: self.hover.set_alpha(val),
            active: self.active.set_alpha(val),
        }
    }
}

impl ResponsiveColor {
    /// Near-white on light themes and near-black on dark ones, with the
    /// hover and active colours that follow from them.
    pub fn white_black() -> (triple: Self)
        ensures
            triple@ == ResponsiveModel::derive(
                LightDarkModel {
                    light: ColorModel { hue: 0, sat: 100, light: 95, alpha: 100 },
                    dark: ColorModel { hue: 0, sat: 100, light: 5, alpha: 100 },
                    reversed: false,
                },
            ),
            triple@.valid(),
    {
        ResponsiveColor::from_lightdark(
            LightDark::new(HSLColor::new(0, 100, 95, 100), HSLColor::new(0, 100, 5, 100)),
        )
    }
}

impl Default for HSLColor {
    /// The colour with every percentage at 0.
    fn default() -> (c: Self)
        ensures
            c@ == (ColorModel { hue: 0, sat: 0, light: 0, alpha: 0 }),
    {
        HSLColor { hue: 0, sat: 0, light: 0, alpha: 0 }
    }
}

impl From<(u8, u8, u8, u8)> for HSLColor {
    /// The colour with hue, saturation, lightness and opacity in that order.
    fn from(value: (u8, u8, u8, u8)) -> (c: Self)
        ensures
            c@ == (ColorModel {
                hue: value.0 as int,
                sat: value.1 as int,
                light: value.2 as int,
                alpha: value.3 as int,
            }),
    {
        HSLColor { hue: value.0, sat: value.1, light: value.2, alpha: value.3 }
    }
}

impl vstd::std_specs::convert::FromSpecImpl<(u8, u8, u8, u8)> for HSLColor {
    open spec fn obeys_from_spec() -> bool {
        true
    }

    closed spec fn from_spec(value: (u8, u8, u8, u8)) -> Self {
        HSLColor { hue: value.0, sat: value.1, light: value.2, alpha: value.3 }
    }
}

/// Resolving a pair twice under the same dark-mode setting gives the same
/// colour both times, and that colour is one of the pair's two.
pub proof fn lemma_resolution_is_deterministic(
    pair: LightDark,
    dark_mode: bool,
    first: HSLColor,
    second: HSLColor,
)
    requires
        first@ == pair@.resolve(dark_mode),
        second@ == pair@.resolve(dark_mode),
    ensures
        first == second,
        first@ == pair@.light || first@ == pair@.dark,
{
    HSLColor::lemma_view_determines_color(first, second);
}

/// A reversed pair shows under one dark-mode setting what the pair itself
/// shows under the other, and reversing twice changes nothing.
pub proof fn lemma_reverse_swaps_resolution(pair: LightDarkModel, dark_mode: bool)
    ensures
        pair.reverse().resolve(dark_mode) == pair.resolve(!dark_mode),
        pair.reverse().reverse() == pair,
        pair.resolve(dark_mode) == if dark_mode != pair.reversed {
            pair.dark
        } else {
            pair.light
        },
{
}

/// In a derived triple the base is the pair itself. Hover and active differ
/// from it in lightness alone: the dark colour is lighter by 10 and by 20,
/// stopping at 100, and the light colour is darker by 10 and by 20, stopping
/// at 0.
pub proof fn lemma_derived_shifts(pair: LightDarkModel)
    ensures
        ResponsiveModel::derive(pair).base == pair,
        ResponsiveModel::derive(pair).hover == (LightDarkModel {
            light: ColorModel { light: capped_difference(pair.light.light, 10), ..pair.light },
            dark: ColorModel { light: capped_sum(pair.dark.light, 10), ..pair.dark },
            reversed: pair.reversed,
        }),
        ResponsiveModel::derive(pair).active == (LightDarkModel {
            light: ColorModel { light: capped_difference(pair.light.light, 20), ..pair.light },
            dark: ColorModel { light: capped_sum(pair.dark.light, 20), ..pair.dark },
            reversed: pair.reversed,
        }),
        pair.valid() ==> ResponsiveModel::derive(pair).valid(),
{
}

/// No adjustment takes a valid colour out of range, whatever the amount.
pub proof fn lemma_adjust_stays_in_range(
    color: ColorModel,
    channel: Channel,
    op: Adjustment,
    percent: int,
)
    requires
        color.valid(),
        0 <= percent,
    ensures
        color.adjust(channel, op, percent).valid(),
        color.increase_hue(percent).valid(),
        color.decrease_hue(percent).valid(),
        color.max_contrast().valid(),
        color.desat_opposite().valid(),
{
}

impl Default for LightDark {
    /// The pair of two default colours, not reversed.
    fn default() -> (pair: Self)
        ensures
            pair@ == LightDarkModel::transparent(),
    {
        LightDark {
            light: HSLColor::default(),
            dark: HSLColor::default(),
            light_mode_default: LightModeDefault::Light,
        }
    }
}

/// The named colours that the widgets draw from.
#[derive(Clone, Copy, Debug, PartialEq, Eq, Structural)]
pub struct ColorPalette {
    pub light1: HSLColor,
    pub light2: HSLColor,
    pub light3: HSLColor,
    pub light4: HSLColor,
    pub dark1: HSLColor,
    pub dark3: HSLColor,
    pub transparent: HSLColor,
    pub accent_ld: LightDark,
    pub border_ld: LightDark,
    pub cursor_ld: LightDark,
    pub dropdown_bg: LightDark,
    pub scroll_bar_ld: LightDark,
    pub popover_bg: ResponsiveColor,
}

impl ColorModel {
    /// The colour to write in on top of this one: `on_dark` where this
    /// colour is darker than the middle, `on_light` where it is not.
    pub open spec fn fg_color(self, on_dark: ColorModel, on_light: ColorModel) -> ColorModel {
        if self.light < 50 {
            on_dark
        } else {
            on_light
        }
    }
}

impl HSLColor {
    /// The colour to write in on top of this one: `on_dark` where the
    /// lightness is below 50, else `on_light`.
    pub fn fg_color(self, on_dark: HSLColor, on_light: HSLColor) -> (c: HSLColor)
        ensures
            c@ == self@.fg_color(on_dark@, on_light@),
            c == on_dark || c == on_light,
    {
        if self.light < 50 {
            on_dark
        } else {
            on_light
        }
    }
}

impl LightDark {
    /// The pair to write in on top of this one: for each of the two
    /// colours, the palette's lightest where it is dark and the palette's
    /// darkest where it is light. The orientation stays.
    pub fn fg_color(self, palette: &ColorPalette) -> (pair: LightDark)
        ensures
            pair@ == (LightDarkModel {
                light: self@.light.fg_color(palette.light1@, palette.dark1@),
                dark: self@.dark.fg_color(palette.light1@, palette.dark1@),
                reversed: self@.reversed,
            }),
    {
        LightDark {
            light: self.light.fg_color(palette.light1, palette.dark1),
            dark: self.dark.fg_color(palette.light1, palette.dark1),
            light_mode_default: self.light_mode_default,
        }
    }
}

/// The five colours that a design system names. Its other colours follow
/// from these.
#[derive(Clone, Copy, Debug, PartialEq, Eq, Structural)]
pub struct DesignColors {
    pub text: ResponsiveColor,
    pub background: ResponsiveColor,
    pub primary: ResponsiveColor,
    pub secondary: ResponsiveColor,
    pub accent: ResponsiveColor,
}

impl ResponsiveModel {
    /// `pair` with its light colour made lighter and its dark colour made
    /// darker by `percent`, each held in range: the opposite of `shifted`.
    pub open spec fn shifted_back(pair: LightDarkModel, percent: int) -> LightDarkModel {
        pair.adjust(Branch::Light, Channel::Light, Adjustment::IncreaseCap, percent).adjust(
            Branch::Dark,
            Channel::Light,
            Adjustment::DecreaseCap,
            percent,
        )
    }
}

impl DesignColors {
    /// The background one step towards the middle: the triple that follows
    /// from the base background shifted by 10.
    pub fn background_2(&self) -> (triple: ResponsiveColor)
        ensures
            triple@ == ResponsiveModel::derive(
                ResponsiveModel::shifted(self.background@.base, 10),
            ),
    {
        ResponsiveColor::from_lightdark(
            self.background.base.adjust(
                Branch::Light,
                Channel::Light,
                Adjustment::DecreaseCap,
                10,
            ).adjust(Branch::Dark, Channel::Light, Adjustment::IncreaseCap, 10),
        )
    }

    /// The background two steps towards the middle: what `background_2`
    /// is to the background, this is to `background_2`.
    pub fn background_3(&self) -> (triple: ResponsiveColor)
        ensures
            triple@ == ResponsiveModel::derive(
                ResponsiveModel::shifted(ResponsiveModel::shifted(self.background@.base, 10), 10),
            ),
    {
        ResponsiveColor::from_lightdark(
            self.background_2().base.adjust(
                Branch::Light,
                Channel::Light,
                Adjustment::DecreaseCap,
                10,
            ).adjust(Branch::Dark, Channel::Light, Adjustment::IncreaseCap, 10),
        )
    }

    /// The background one step away from the middle: the triple that
    /// follows from the base background shifted back by 10.
    pub fn background_ext(&self) -> (triple: ResponsiveColor)
        ensures
            triple@ == ResponsiveModel::derive(
                ResponsiveModel::shifted_back(self.background@.base, 10),
            ),
    {
        ResponsiveColor::from_lightdark(
            self.background.base.adjust(
                Branch::Light,
                Channel::Light,
                Adjustment::IncreaseCap,
                10,
            ).adjust(Branch::Dark, Channel::Light, Adjustment::DecreaseCap, 10),
        )
    }

    /// Nothing at rest, the background under the pointer, and the
    /// background's hover colours when pressed.
    pub fn hover_background(&self) -> (triple: ResponsiveColor)
        ensures
            triple@ == (ResponsiveModel {
                base: LightDarkModel::transparent(),
                hover: self.background@.base,
                active: self.background@.hover,
            }),
    {
        ResponsiveColor {
            base: LightDark::transparent(),
            hover: self.background.base,
            active: self.background.hover,
        }
    }

    /// The background at rest, the accent under the pointer, and the
    /// accent's hover colours when pressed.
    pub fn hover_accent(&self) -> (triple: ResponsiveColor)
        ensures
            triple == (ResponsiveColor {
                base: self.background.base,
                hover: self.accent.base,
                active: self.accent.hover,
            }),
    {
        ResponsiveColor {
            base: self.background.base,
            hover: self.accent.base,
            active: self.accent.hover,
        }
    }

    /// As `hover_accent`, at rest on `background_2`.
    pub fn hover_accent_2(&self) -> (triple: ResponsiveColor)
        ensures
            triple@ == (ResponsiveModel {
                base: ResponsiveModel::shifted(self.background@.base, 10),
                hover: self.accent@.base,
                active: self.accent@.hover,
            }),
    {
        ResponsiveColor {
            base: self.background_2().base,
            hover: self.accent.base,
            active: self.accent.hover,
        }
    }

    /// As `hover_accent`, at rest on `background_3`.
    pub fn hover_accent_3(&self) -> (triple: ResponsiveColor)
        ensures
            triple@ == (ResponsiveModel {
                base: ResponsiveModel::shifted(ResponsiveModel::shifted(self.background@.base, 10), 10),
                hover: self.accent@.base,
                active: self.accent@.hover,
            }),
    {
        ResponsiveColor {
            base: self.background_3().base,
            hover: self.accent.base,
            active: self.accent.hover,
        }
    }
}

} // verus!
