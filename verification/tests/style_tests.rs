use widget_kit::style::decrease_cap;
use widget_kit::style::decrease_cycle;
use widget_kit::style::increase_cap;
use widget_kit::style::increase_cycle;
use widget_kit::style::adjust_percent;
use widget_kit::style::Adjustment;
use widget_kit::style::Branch;
use widget_kit::style::Channel;
use widget_kit::style::DesignColors;
use widget_kit::style::HSLColor;
use widget_kit::style::LightDark;
use widget_kit::style::ResponsiveColor;

fn parts(c: HSLColor) -> (u8, u8, u8, u8) {
    (c.hue(), c.sat(), c.light(), c.alpha())
}

#[test]
fn increase_cap_is_the_sum_held_at_100() {
    for p in 0u8..=100 {
        for q in 0u8..=100 {
            let r = increase_cap(p, q);
            assert!(r <= 100);
            assert_eq!(r as u32, std::cmp::min(100, p as u32 + q as u32));
        }
    }
    assert_eq!(increase_cap(95, 10), 100);
    assert_eq!(increase_cap(40, 10), 50);
    assert_eq!(increase_cap(100, 0), 100);
    assert_eq!(increase_cap(0, 0), 0);
}

#[test]
fn increase_cap_never_overflows() {
    assert_eq!(increase_cap(255, 255), 100);
    assert_eq!(increase_cap(200, 1), 100);
    assert_eq!(increase_cap(0, 255), 100);
}

#[test]
fn decrease_cap_is_the_difference_held_at_0() {
    for p in 0u8..=100 {
        for q in 0u8..=100 {
            let r = decrease_cap(p, q);
            assert!(r <= 100);
            assert_eq!(r as i32, std::cmp::max(0, p as i32 - q as i32));
        }
    }
    assert_eq!(decrease_cap(5, 10), 0);
    assert_eq!(decrease_cap(50, 10), 40);
    assert_eq!(decrease_cap(0, 0), 0);
}

#[test]
fn increase_cycle_wraps_past_100() {
    for p in 0u8..=100 {
        for q in 0u8..=100 {
            let r = increase_cycle(p, q);
            assert!(r <= 100);
            assert_eq!(r as u32, (p as u32 + q as u32) % 101);
        }
    }
    assert_eq!(increase_cycle(100, 1), 0);
    assert_eq!(increase_cycle(95, 10), 4);
    assert_eq!(increase_cycle(100, 100), 99);
    assert_eq!(increase_cycle(50, 50), 100);
}

#[test]
fn decrease_cycle_wraps_below_0() {
    for p in 0u8..=100 {
        for q in 0u8..=100 {
            let r = decrease_cycle(p, q);
            assert!(r <= 100);
            assert_eq!(r as i32, (p as i32 - q as i32).rem_euclid(101));
        }
    }
    assert_eq!(decrease_cycle(0, 1), 100);
    assert_eq!(decrease_cycle(5, 10), 96);
    assert_eq!(decrease_cycle(0, 100), 1);
    assert_eq!(decrease_cycle(10, 10), 0);
}

#[test]
fn cycles_take_any_byte() {
    assert_eq!(increase_cycle(255, 255), (510 % 101) as u8);
    assert_eq!(decrease_cycle(0, 255), (0i32 - 255).rem_euclid(101) as u8);
    assert_eq!(decrease_cycle(255, 0), (255 % 101) as u8);
}

#[test]
fn adjust_percent_picks_the_operation() {
    assert_eq!(adjust_percent(Adjustment::IncreaseCap, 95, 10), 100);
    assert_eq!(adjust_percent(Adjustment::DecreaseCap, 5, 10), 0);
    assert_eq!(adjust_percent(Adjustment::IncreaseCycle, 95, 10), 4);
    assert_eq!(adjust_percent(Adjustment::DecreaseCycle, 5, 10), 96);
}

#[test]
fn new_keeps_its_arguments() {
    let c = HSLColor::new(1, 2, 3, 4);
    assert_eq!(parts(c), (1, 2, 3, 4));
}

#[test]
fn from_tuple_is_new() {
    let c = HSLColor::from((10, 20, 30, 40));
    assert_eq!(c, HSLColor::new(10, 20, 30, 40));
}

#[test]
fn default_color_is_all_zero() {
    assert_eq!(HSLColor::default(), HSLColor::new(0, 0, 0, 0));
}

#[test]
fn adjust_touches_one_channel() {
    let c = HSLColor::new(10, 20, 30, 40);
    assert_eq!(
        c.adjust(Channel::Sat, Adjustment::IncreaseCap, 90),
        HSLColor::new(10, 100, 30, 40)
    );
    assert_eq!(
        c.adjust(Channel::Light, Adjustment::DecreaseCycle, 31),
        HSLColor::new(10, 20, 100, 40)
    );
    assert_eq!(
        c.adjust(Channel::Alpha, Adjustment::IncreaseCycle, 61),
        HSLColor::new(10, 20, 30, 0)
    );
    assert_eq!(
        c.adjust(Channel::Alpha, Adjustment::DecreaseCap, 41),
        HSLColor::new(10, 20, 30, 0)
    );
}

#[test]
fn adjust_does_not_change_the_receiver() {
    let c = HSLColor::new(10, 20, 30, 40);
    let _ = c.adjust(Channel::Light, Adjustment::IncreaseCap, 50);
    assert_eq!(c, HSLColor::new(10, 20, 30, 40));
}

#[test]
fn hue_moves_on_its_cycle() {
    let c = HSLColor::new(95, 20, 30, 40);
    assert_eq!(c.increase_hue(10), HSLColor::new(4, 20, 30, 40));
    assert_eq!(c.decrease_hue(96), HSLColor::new(100, 20, 30, 40));
    assert_eq!(HSLColor::new(0, 0, 0, 0).decrease_hue(1).hue(), 100);
}

#[test]
fn max_contrast_mirrors_lightness_and_keeps_hue() {
    assert_eq!(HSLColor::new(10, 20, 30, 40).max_contrast(), HSLColor::new(10, 20, 70, 40));
    assert_eq!(HSLColor::new(0, 0, 0, 0).max_contrast().light(), 100);
    assert_eq!(HSLColor::new(0, 0, 100, 0).max_contrast().light(), 0);
    assert_eq!(HSLColor::new(0, 0, 50, 0).max_contrast().light(), 50);
}

#[test]
fn max_contrast_wraps_out_of_range_lightness() {
    assert_eq!(HSLColor::new(0, 0, 101, 0).max_contrast().light(), 255);
    assert_eq!(HSLColor::new(0, 0, 255, 0).max_contrast().light(), 101);
}

#[test]
fn desat_opposite_greys_the_color() {
    assert_eq!(HSLColor::new(10, 80, 30, 40).desat_opposite(), HSLColor::new(10, 0, 29, 90));
    assert_eq!(HSLColor::new(10, 100, 0, 60).desat_opposite(), HSLColor::new(10, 0, 100, 100));
    assert_eq!(HSLColor::new(0, 100, 95, 100).desat_opposite(), HSLColor::new(0, 0, 94, 100));
}

#[test]
fn set_alpha_replaces_the_opacity() {
    assert_eq!(HSLColor::new(10, 20, 30, 40).set_alpha(7), HSLColor::new(10, 20, 30, 7));
}

fn pair() -> LightDark {
    LightDark::new(HSLColor::new(1, 2, 95, 4), HSLColor::new(5, 6, 7, 8))
}

#[test]
fn resolution_follows_the_table() {
    let p = pair();
    assert_eq!(p.get_base(false), HSLColor::new(1, 2, 95, 4));
    assert_eq!(p.get_base(true), HSLColor::new(5, 6, 7, 8));
    let r = p.reverse();
    assert_eq!(r.get_base(false), HSLColor::new(5, 6, 7, 8));
    assert_eq!(r.get_base(true), HSLColor::new(1, 2, 95, 4));
}

#[test]
fn resolution_gives_the_same_color_twice() {
    for p in [pair(), pair().reverse()] {
        for dark_mode in [false, true] {
            assert_eq!(p.get_base(dark_mode), p.get_base(dark_mode));
        }
    }
}

#[test]
fn reverse_twice_is_the_pair_itself() {
    assert_eq!(pair().reverse().reverse(), pair());
    assert_ne!(pair().reverse(), pair());
}

#[test]
fn reverse_keeps_both_colors() {
    let r = pair().reverse();
    assert_eq!(r.light(), pair().light());
    assert_eq!(r.dark(), pair().dark());
}

#[test]
fn pair_adjust_touches_one_branch() {
    let p = pair().adjust(Branch::Dark, Channel::Light, Adjustment::IncreaseCap, 10);
    assert_eq!(p.light, HSLColor::new(1, 2, 95, 4));
    assert_eq!(p.dark, HSLColor::new(5, 6, 17, 8));
    let q = pair().adjust(Branch::Light, Channel::Light, Adjustment::IncreaseCycle, 10);
    assert_eq!(q.light, HSLColor::new(1, 2, 4, 4));
    assert_eq!(q.dark, HSLColor::new(5, 6, 7, 8));
}

#[test]
fn pair_hue_operations() {
    assert_eq!(pair().dark_increase_hue(100).dark, HSLColor::new(4, 6, 7, 8));
    assert_eq!(pair().dark_increase_hue(100).light, pair().light);
    assert_eq!(pair().dark_decrease_hue(6).dark, HSLColor::new(100, 6, 7, 8));
    assert_eq!(pair().dark_decrease_hue(6).light, pair().light);
    assert_eq!(pair().light_increase_hue(100).light, HSLColor::new(0, 2, 95, 4));
    assert_eq!(pair().light_increase_hue(100).dark, pair().dark);
    assert_eq!(pair().light_decrease_hue(2).light, HSLColor::new(100, 2, 95, 4));
    assert_eq!(pair().light_decrease_hue(2).dark, pair().dark);
}

#[test]
fn pair_max_contrast_takes_both_from_the_light_color() {
    let p = pair().max_contrast();
    assert_eq!(p.light, HSLColor::new(1, 2, 5, 4));
    assert_eq!(p.dark, HSLColor::new(1, 2, 95, 4));
    assert_eq!(p.get_base(false), p.light);
}

#[test]
fn pair_desat_opposite_greys_both() {
    let p = pair().desat_opposite();
    assert_eq!(p.light, HSLColor::new(1, 0, 94, 54));
    assert_eq!(p.dark, HSLColor::new(5, 0, 6, 58));
}

#[test]
fn transparent_pair_is_all_zero() {
    let t = LightDark::transparent();
    assert_eq!(t, LightDark::new(HSLColor::new(0, 0, 0, 0), HSLColor::new(0, 0, 0, 0)));
    assert_eq!(t.get_base(true).alpha(), 0);
    assert_eq!(t.get_base(false).alpha(), 0);
}

#[test]
fn pair_set_alpha_sets_both() {
    let p = pair().set_alpha(50);
    assert_eq!(p.light, HSLColor::new(1, 2, 95, 50));
    assert_eq!(p.dark, HSLColor::new(5, 6, 7, 50));
}

#[test]
fn derived_colors_shift_lightness_by_10_and_20() {
    let t = ResponsiveColor::from_lightdark(pair());
    assert_eq!(t.base, pair());
    assert_eq!(t.hover.light, HSLColor::new(1, 2, 85, 4));
    assert_eq!(t.hover.dark, HSLColor::new(5, 6, 17, 8));
    assert_eq!(t.active.light, HSLColor::new(1, 2, 75, 4));
    assert_eq!(t.active.dark, HSLColor::new(5, 6, 27, 8));
}

#[test]
fn derived_shift_stops_at_the_bounds() {
    let base = LightDark::new(HSLColor::new(0, 0, 15, 100), HSLColor::new(0, 0, 85, 100));
    let t = ResponsiveColor::from_lightdark(base);
    assert_eq!(t.hover.light.light(), 5);
    assert_eq!(t.hover.dark.light(), 95);
    assert_eq!(t.active.light.light(), 0);
    assert_eq!(t.active.dark.light(), 100);
}

#[test]
fn derivation_keeps_the_orientation() {
    let t = ResponsiveColor::from_lightdark(pair().reverse());
    assert_eq!(t.base.get_base(false), pair().dark);
    assert_eq!(t.hover.get_base(false), HSLColor::new(5, 6, 17, 8));
    assert_eq!(t.active.get_base(true), HSLColor::new(1, 2, 75, 4));
}

#[test]
fn white_black_is_derived_from_its_pair() {
    let t = ResponsiveColor::white_black();
    assert_eq!(
        t,
        ResponsiveColor::from_lightdark(LightDark::new(
            HSLColor::new(0, 100, 95, 100),
            HSLColor::new(0, 100, 5, 100)
        ))
    );
    assert_eq!(t.hover.light.light(), 85);
    assert_eq!(t.active.dark.light(), 25);
}

#[test]
fn triple_overrides() {
    let t = ResponsiveColor::from_lightdark(pair());
    let a = t.disable_base();
    assert_eq!(a.base, LightDark::transparent());
    assert_eq!((a.hover, a.active), (t.hover, t.active));
    let b = t.disable_hover();
    assert_eq!(b.hover, LightDark::transparent());
    assert_eq!((b.base, b.active), (t.base, t.active));
    let c = t.disable_active();
    assert_eq!(c.active, LightDark::transparent());
    assert_eq!((c.base, c.hover), (t.base, t.hover));
    let d = t.set_hover_to_base();
    assert_eq!((d.base, d.hover, d.active), (t.base, t.base, t.active));
    let e = t.reduce_active_to_hover();
    assert_eq!((e.base, e.hover, e.active), (t.base, t.hover, t.hover));
}

#[test]
fn triple_reverse_and_set_alpha_reach_all_three() {
    let t = ResponsiveColor::from_lightdark(pair());
    let r = t.reverse();
    assert_eq!(r.base, t.base.reverse());
    assert_eq!(r.hover, t.hover.reverse());
    assert_eq!(r.active, t.active.reverse());
    let s = t.set_alpha(9);
    assert_eq!(s.base, t.base.set_alpha(9));
    assert_eq!(s.hover, t.hover.set_alpha(9));
    assert_eq!(s.active, t.active.set_alpha(9));
    assert_eq!(s.active.dark.alpha(), 9);
}

#[test]
fn operations_keep_valid_colors_valid() {
    let ops = [
        Adjustment::IncreaseCap,
        Adjustment::DecreaseCap,
        Adjustment::IncreaseCycle,
        Adjustment::DecreaseCycle,
    ];
    let channels = [Channel::Sat, Channel::Light, Channel::Alpha];
    for v in [0u8, 1, 50, 99, 100] {
        for q in [0u8, 1, 50, 100, 101, 255] {
            let c = HSLColor::new(v, v, v, v);
            for op in ops {
                for channel in channels {
                    let (h, s, l, a) = parts(c.adjust(channel, op, q));
                    assert!(h <= 100 && s <= 100 && l <= 100 && a <= 100);
                }
            }
            assert!(c.increase_hue(q).hue() <= 100);
            assert!(c.decrease_hue(q).hue() <= 100);
            assert!(c.max_contrast().light() <= 100);
        }
    }
}

#[test]
fn default_pair_is_the_transparent_pair() {
    assert_eq!(LightDark::default(), LightDark::transparent());
}

fn design() -> DesignColors {
    let grey = |l: u8| HSLColor::new(0, 0, l, 100);
    let of = |light: u8, dark: u8| ResponsiveColor::from_lightdark(LightDark::new(grey(light), grey(dark)));
    DesignColors {
        text: of(5, 95),
        background: of(95, 5),
        primary: of(60, 40),
        secondary: of(70, 30),
        accent: ResponsiveColor::from_lightdark(LightDark::new(
            HSLColor::new(60, 80, 50, 100),
            HSLColor::new(60, 80, 40, 100),
        )),
    }
}

#[test]
fn stepped_backgrounds_move_towards_the_middle() {
    let d = design();
    let b2 = d.background_2();
    assert_eq!(b2.base.light.light(), 85);
    assert_eq!(b2.base.dark.light(), 15);
    assert_eq!(b2, ResponsiveColor::from_lightdark(d.background.hover));
    assert_eq!(b2.hover.light.light(), 75);
    let b3 = d.background_3();
    assert_eq!(b3.base.light.light(), 75);
    assert_eq!(b3.base.dark.light(), 25);
    assert_eq!(b3.active.dark.light(), 45);
}

#[test]
fn outer_background_moves_away_from_the_middle() {
    let d = design();
    let ext = d.background_ext();
    assert_eq!(ext.base.light.light(), 100);
    assert_eq!(ext.base.dark.light(), 0);
    assert_eq!(ext.hover.light.light(), 90);
    assert_eq!(ext.hover.dark.light(), 10);
}

#[test]
fn hover_colors_are_put_together_from_background_and_accent() {
    let d = design();
    let hb = d.hover_background();
    assert_eq!((hb.base, hb.hover, hb.active), (LightDark::transparent(), d.background.base, d.background.hover));
    let ha = d.hover_accent();
    assert_eq!((ha.base, ha.hover, ha.active), (d.background.base, d.accent.base, d.accent.hover));
    let ha2 = d.hover_accent_2();
    assert_eq!((ha2.base, ha2.hover, ha2.active), (d.background_2().base, d.accent.base, d.accent.hover));
    let ha3 = d.hover_accent_3();
    assert_eq!((ha3.base, ha3.hover, ha3.active), (d.background_3().base, d.accent.base, d.accent.hover));
}
