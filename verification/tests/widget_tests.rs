use widget_kit::components::edit_key_down;
use widget_kit::components::EditKey;
use widget_kit::components::EditStep;
use widget_kit::components::Toggle;
use widget_kit::popover::PopoverState;
use widget_kit::resource::binding_step;
use widget_kit::resource::BindingEvent;
use widget_kit::resource::BindingStep;
use widget_kit::style::HSLColor;
use widget_kit::style::LightDark;
use widget_kit::style::ResponsiveColor;

#[test]
fn toggle_flips_and_reports_on_each_click() {
    let mut t = Toggle::new(false);
    assert!(!t.is_active());
    assert!(t.click());
    assert!(t.is_active());
    assert!(!t.click());
    assert!(!t.is_active());
}

#[test]
fn toggle_starts_where_it_is_told() {
    let mut t = Toggle::new(true);
    assert!(t.is_active());
    assert!(!t.click());
}

#[test]
fn toggle_track_color_follows_the_state() {
    let accent = LightDark::new(HSLColor::new(60, 80, 50, 100), HSLColor::new(60, 80, 40, 100));
    let idle = LightDark::new(HSLColor::new(0, 0, 80, 100), HSLColor::new(0, 0, 70, 100));
    assert_eq!(Toggle::new(true).color(accent, idle), ResponsiveColor::from_lightdark(accent));
    assert_eq!(Toggle::new(false).color(accent, idle), ResponsiveColor::from_lightdark(idle));
}

#[test]
fn enter_accepts_and_hides_the_editor() {
    for editor in [PopoverState::Open, PopoverState::Closed] {
        assert_eq!(
            edit_key_down(editor, EditKey::Enter),
            EditStep { editor: PopoverState::Closed, accepted: true }
        );
    }
}

#[test]
fn other_keys_leave_the_editor_alone() {
    for editor in [PopoverState::Open, PopoverState::Closed] {
        assert_eq!(edit_key_down(editor, EditKey::Other), EditStep { editor, accepted: false });
    }
}

#[test]
fn first_reading_of_a_source_is_not_forwarded() {
    for enabled in [false, true] {
        for loading in [false, true] {
            assert_eq!(
                binding_step(loading, BindingEvent::SourceRead { ran_before: false, enabled }),
                BindingStep { loading, forward: false }
            );
        }
    }
}

#[test]
fn later_readings_are_forwarded_and_start_loading() {
    for loading in [false, true] {
        assert_eq!(
            binding_step(loading, BindingEvent::SourceRead { ran_before: true, enabled: true }),
            BindingStep { loading: true, forward: true }
        );
    }
}

#[test]
fn disabled_binding_forwards_nothing() {
    for loading in [false, true] {
        assert_eq!(
            binding_step(loading, BindingEvent::SourceRead { ran_before: true, enabled: false }),
            BindingStep { loading, forward: false }
        );
    }
}

#[test]
fn a_result_ends_the_loading() {
    for loading in [false, true] {
        assert_eq!(
            binding_step(loading, BindingEvent::Fetched),
            BindingStep { loading: false, forward: false }
        );
    }
}
