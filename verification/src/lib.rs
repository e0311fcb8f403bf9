//! NPC mind engine: the verified domain core.
//!
//! Identifiers, rumors, memory classification, event routing, emotions and
//! the scenes they drive, HEXACO personalities and NPCs, relationships and
//! their bonds, the PAD table, the worldbuilding aggregates (groups,
//! places, persons, eras, events, timelines and atlases) and the acting
//! guide with its decision tables.

pub mod text;
pub mod clock;
pub mod float_bits;
pub mod present;
pub mod aggregate;
pub mod scene_id;
pub mod event;
pub mod rumor;
pub mod emotion;
pub mod relationship;
pub mod listener_perspective;
pub mod memory;
pub mod pad;
pub mod reflection;
pub mod tuning;
pub mod guide;
pub mod world;
pub mod personality;
