use std::sync::{Arc, Mutex};
use winit::cursor::{CursorIcon, CursorManager, PointerCursor};

fn manager() -> CursorManager {
    CursorManager::new(Arc::new(Mutex::new(None)))
}

fn themed(shown: PointerCursor) -> &'static str {
    match shown {
        PointerCursor::Themed(name) => name,
        PointerCursor::Hidden => panic!("the cursor is hidden"),
    }
}

#[test]
fn cursor_names_follow_the_theme() {
    let manager = manager();
    assert_eq!(manager.set_cursor_icon_impl(CursorIcon::Default), "left_ptr");
    assert_eq!(manager.set_cursor_icon_impl(CursorIcon::Alias), "link");
    assert_eq!(manager.set_cursor_icon_impl(CursorIcon::Cell), "plus");
    assert_eq!(manager.set_cursor_icon_impl(CursorIcon::NotAllowed), "crossed_circle");
    assert_eq!(manager.set_cursor_icon_impl(CursorIcon::ColResize), "h_double_arrow");
    assert_eq!(manager.set_cursor_icon_impl(CursorIcon::EwResize), "h_double_arrow");
    assert_eq!(manager.set_cursor_icon_impl(CursorIcon::RowResize), "v_double_arrow");
    assert_eq!(manager.set_cursor_icon_impl(CursorIcon::Wait), "watch");
    assert_eq!(manager.set_cursor_icon_impl(CursorIcon::ZoomOut), "zoom-out");
    assert_eq!(manager.set_cursor_icon_impl(CursorIcon::NwseResize), "bd_double_arrow");
}

#[test]
fn new_cursor_is_the_visible_default() {
    let mut manager = manager();
    assert_eq!(themed(manager.reload_cursor_style()), "left_ptr");
}

#[test]
fn changing_the_icon_shows_it_when_visible() {
    let mut manager = manager();
    assert_eq!(manager.set_cursor_icon(CursorIcon::Hand), Some(PointerCursor::Themed("hand")));
    assert_eq!(manager.set_cursor_icon(CursorIcon::Hand), None);
    assert_eq!(themed(manager.reload_cursor_style()), "hand");
}

#[test]
fn icon_set_while_hidden_shows_later() {
    let mut manager = manager();
    assert_eq!(manager.set_cursor_visible(false), PointerCursor::Hidden);
    assert_eq!(manager.set_cursor_icon(CursorIcon::Text), None);
    assert_eq!(manager.reload_cursor_style(), PointerCursor::Hidden);
    assert_eq!(themed(manager.set_cursor_visible(true)), "text");
}

#[test]
fn rescaling_restores_the_cursor() {
    let mut manager = manager();
    manager.set_cursor_icon(CursorIcon::Crosshair);
    assert_eq!(themed(manager.update_scale_factor(2)), "crosshair");
    manager.set_cursor_visible(false);
    assert_eq!(manager.update_scale_factor(3), PointerCursor::Hidden);
}

#[test]
fn grabbing_without_locks_keeps_the_cursor() {
    let mut manager = manager();
    assert!(manager.grab_pointer(None).is_empty());
    assert_eq!(themed(manager.reload_cursor_style()), "left_ptr");
}
