//! Simulation core of a side-view "launch and fly" arcade game: a projectile
//! is aimed, launched, flies under gravity and drag, bounces, and earns money
//! through a timing-based boost meter and collectible pickups, spent on
//! permanent upgrade cards between runs.
//!
//! All continuous quantities (positions, velocities, angles, timers) are
//! fixed-point numbers: `i64` values scaled by [`fx::SCALE`] sub-units per
//! unit. Every state change is specified exactly over that representation;
//! sums that would leave the representable range saturate at named caps, and
//! each contract states the saturation explicitly.
//!
//! - [`game`] holds the phase state machine, trajectory integration, boost
//!   meter and card economy, rooted at [`game::GameState`];
//! - [`card`] the upgrade card templates, eligibility rule and offer draw;
//! - [`object`] the parallax-scrolling world objects and their respawning;
//! - [`particle`] the short-lived pixel effects;
//! - [`pickup`] the wrap-around pickup bank;
//! - [`fx`] the fixed-point arithmetic and the shared oscillator shapes;
//! - [`geom`] vectors, rectangles and the overlap test;
//! - [`rng`] the randomness, behind trusted range-bounded draws.
//!
//! Rendering, asset loading and input polling are outside collaborators: the
//! state exposes what they draw (phase, positions, money, meter fractions)
//! and consumes a timestep and an edge-triggered button release per tick.

pub mod card;
pub mod fx;
pub mod game;
pub mod geom;
pub mod particle;
pub mod pickup;
pub mod object;
pub mod rng;
