use layout_indicator::cache::IconCache;
use layout_indicator::icon::ICON_BYTES;
use layout_indicator::indicator::{Indicator, IndicatorEvent};

fn indicator(active: u32) -> Indicator {
    let names = vec!["English (US)".to_string(), "Russian".to_string()];
    let icons = vec![vec![1u8; ICON_BYTES], vec![2u8; ICON_BYTES]];
    let cache = IconCache::from_icons(&names, icons);
    Indicator::new(names, cache, active)
}

/// Feeds the events and counts the draws that the loop would make.
fn draws(ind: &mut Indicator, events: &[IndicatorEvent]) -> usize {
    let mut n = 0;
    for ev in events {
        if ind.handle_event(*ev) && ind.current_icon().is_some() {
            n += 1;
        }
    }
    n
}

#[test]
fn same_layout_draws_nothing() {
    let mut ind = indicator(1);
    assert_eq!(draws(&mut ind, &[IndicatorEvent::LayoutChanged(1)]), 0);
    assert_eq!(ind.active(), 1);
}

#[test]
fn other_layout_draws_once_and_switches() {
    let mut ind = indicator(0);
    assert_eq!(draws(&mut ind, &[IndicatorEvent::LayoutChanged(1)]), 1);
    assert_eq!(ind.active(), 1);
    assert_eq!(ind.current_icon().unwrap()[0], 2);
}

#[test]
fn repeated_notification_draws_once() {
    let mut ind = indicator(0);
    let evs = [IndicatorEvent::LayoutChanged(1), IndicatorEvent::LayoutChanged(1)];
    assert_eq!(draws(&mut ind, &evs), 1);
}

#[test]
fn expose_batch_draws_on_last() {
    let mut ind = indicator(0);
    assert!(!ind.handle_event(IndicatorEvent::Expose(2)));
    assert!(!ind.handle_event(IndicatorEvent::Expose(1)));
    assert!(ind.handle_event(IndicatorEvent::Expose(0)));
    let mut ind = indicator(0);
    let evs = [IndicatorEvent::Expose(2), IndicatorEvent::Expose(1), IndicatorEvent::Expose(0)];
    assert_eq!(draws(&mut ind, &evs), 1);
    assert_eq!(ind.active(), 0);
}

#[test]
fn other_events_are_ignored() {
    let mut ind = indicator(0);
    assert!(!ind.handle_event(IndicatorEvent::Other));
    assert_eq!(ind.active(), 0);
}

#[test]
fn index_past_names_draws_nothing() {
    let mut ind = indicator(0);
    assert!(ind.handle_event(IndicatorEvent::LayoutChanged(7)));
    assert_eq!(ind.active(), 7);
    assert!(ind.current_icon().is_none());
    assert!(ind.handle_event(IndicatorEvent::Expose(0)));
    assert!(ind.current_icon().is_none());
    let mut ind = indicator(0);
    assert_eq!(draws(&mut ind, &[IndicatorEvent::LayoutChanged(u32::MAX)]), 0);
    // Coming back to a known layout draws again.
    assert_eq!(draws(&mut ind, &[IndicatorEvent::LayoutChanged(0)]), 1);
}

#[test]
fn missing_icon_draws_nothing() {
    let names = vec!["English (US)".to_string(), "Russian".to_string()];
    let cache = IconCache::from_icons(&vec!["English (US)".to_string()], vec![vec![1u8; ICON_BYTES]]);
    let mut ind = Indicator::new(names, cache, 0);
    assert!(ind.current_icon().is_some());
    assert!(ind.handle_event(IndicatorEvent::LayoutChanged(1)));
    assert!(ind.current_icon().is_none());
}
