//! Par Fractal: the verified core of a GPU fractal explorer.
//!
//! The library holds the parts of the explorer that decide and compute on
//! plain values: the fractal-type catalog and its GPU wire identifiers, the
//! tile-progressive refinement grid, the command palette and its fuzzy
//! matcher, the keyboard shortcuts, render-on-demand scheduling, the
//! reference-orbit scheduling state machine, palette files, preset and
//! storage naming rules, frame read-back and image comparison, and the
//! small parsers of the command-line tools.

pub mod accumulation;
pub mod capture;
pub mod capture_names;
pub mod command_palette;
pub mod deep_zoom;
pub mod image_compare;
pub mod lod;
pub mod palettes;
pub mod platform;
pub mod presets;
pub mod redraw;
pub mod reference;
pub mod refine;
pub mod settings;
pub mod shortcuts;
pub mod text;
pub mod tools;
pub mod types;
pub mod ui_state;
