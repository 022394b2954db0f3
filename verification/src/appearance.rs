//! The system's light/dark appearance, for the follow-system theme mode.
//!
//! On Linux the XDG Desktop Portal publishes `org.freedesktop.appearance /
//! color-scheme`; a watcher stores what it reads as a small code that the UI
//! reads back without blocking. This module holds the two mappings and the
//! unwrapping of the portal's (possibly nested) variant.

use vstd::prelude::*;

verus! {

/// The system's light/dark appearance.
#[derive(Clone, Copy, PartialEq, Eq, Debug, Structural)]
pub enum Appearance {
    Light,
    Dark,
}

/// The stored code of a portal colour scheme: the portal says 0 for no
/// preference, 1 for prefer dark and 2 for prefer light; the code is 0 for
/// unknown, 1 for light and 2 for dark.
pub open spec fn scheme_code_spec(portal: u32) -> u8 {
    if portal == 1 {
        2
    } else if portal == 2 {
        1
    } else {
        0
    }
}

/// The appearance a stored code stands for (`None`: unknown, so the caller
/// keeps its dark-theme fallback).
pub open spec fn appearance_spec(code: u8) -> Option<Appearance> {
    if code == 1 {
        Some(Appearance::Light)
    } else if code == 2 {
        Some(Appearance::Dark)
    } else {
        None
    }
}

/// The code to store for the portal's colour scheme `portal`.
pub fn store_scheme(portal: u32) -> (code: u8)
    ensures
        code == scheme_code_spec(portal),
{
    match portal {
        1 => 2,
        2 => 1,
        _ => 0,
    }
}

/// The appearance the stored `code` stands for.
pub fn detect(code: u8) -> (r: Option<Appearance>)
    ensures
        r == appearance_spec(code),
{
    match code {
        1 => Some(Appearance::Light),
        2 => Some(Appearance::Dark),
        _ => None,
    }
}

/// Following the portal: "prefer dark" reads back as dark, "prefer light" as
/// light, and anything else as unknown.
pub proof fn lemma_scheme_round_trip(portal: u32)
    ensures
        portal == 1 ==> appearance_spec(scheme_code_spec(portal)) == Some(Appearance::Dark),
        portal == 2 ==> appearance_spec(scheme_code_spec(portal)) == Some(Appearance::Light),
        portal != 1 && portal != 2 ==> appearance_spec(scheme_code_spec(portal)) is None,
{
}

/// A D-Bus variant as the portal sends it: a `u32`, a variant wrapping another
/// value, or anything else.
pub enum Variant {
    U32(u32),
    Nested(Box<Variant>),
    Other,
}

/// The `u32` inside any number of variant layers.
pub open spec fn variant_u32(v: Variant) -> Option<u32>
    decreases v,
{
    match v {
        Variant::U32(n) => Some(n),
        Variant::Nested(inner) => variant_u32(*inner),
        Variant::Other => None,
    }
}

/// Strips any number of nested variant layers down to the `u32`.
pub fn variant_to_u32(v: &Variant) -> (r: Option<u32>)
    ensures
        r == variant_u32(*v),
    decreases v,
{
    match v {
        Variant::U32(n) => Some(*n),
        Variant::Nested(inner) => variant_to_u32(inner),
        Variant::Other => None,
    }
}

} // verus!
