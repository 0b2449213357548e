//! Deterministic planning, layout and replay logic of the simulation driver.
pub mod arena_hierarchy;
pub mod arena_registry;
pub mod decimal_text;
pub mod replay_hash;
pub mod diagnostics;
pub mod disruption_decay_0080_2;
pub mod compound_field_0080_2;
pub mod atlas_0080_0;
pub mod dress_rehearsal_atlas_batch_0_gen;
pub mod dress_rehearsal_atlas_batch_0_loc;
pub mod dress_rehearsal_r1_disruption_heatmap;
pub mod action_band_semantic_shadow;
pub mod arena_participant;
pub mod arena_allocation_sync;
pub mod arena_pressure;
pub mod comparative_projection;
pub mod action_band_execution_compile;
pub mod dress_rehearsal_atlas_batch_0_pack;
pub mod text_match;
pub mod dress_rehearsal_atlas_batch_0_store;
pub mod dress_rehearsal_atlas_batch_0_store_gpu;
pub mod control_0080_0;
pub mod control_0080_1;
pub mod default_schedule_0080_0;
pub mod default_schedule_0080_1;
pub mod demo_0080_0;
pub mod demo_0080_1;
