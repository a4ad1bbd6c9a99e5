//! N-body gravitational integration (G = 1): the state-vector layout,
//! trajectory recording, the gravitational kernel, fixed-step integrators and
//! an adaptive embedded Runge–Kutta engine with its step controller, all
//! generic over the numeral type that carries the arithmetic.

pub mod adaptive;
pub mod body;
pub mod config;
pub mod diagnostics;
pub mod fixed;
pub mod kernel;
pub mod numeral;
pub mod trajectory;
pub mod vector;

pub use adaptive::{
    evolve_adaptive, initial_step, masses_of, next_step_size, reached, settle, trial_step,
    Completion, Controller, ErrorEstimate, Evolution, Tableau, Verdict,
};
pub use body::{bodies_from_flat, pack_state, unpack_state, Body};
pub use config::{default_height, default_output, default_width, Scheme};
pub use diagnostics::{total_angular_momentum, total_energy};
pub use fixed::{evolve_fixed, step_rk4, step_sym4, step_velocity_verlet, FixedScheme};
pub use kernel::{accelerations, accelerations_pairwise, deriv, error_norm, positions_of, saxpy_into};
pub use numeral::{clamp, Numeral};
pub use trajectory::{push_sample, reshape_paths};
