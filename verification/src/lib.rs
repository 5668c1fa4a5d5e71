//! Bakery Text's simulation rules: what a line of log text is, how it's
//! generated, and what happens when the player reacts (or doesn't) to it.
mod chance;
mod clock;
mod customer;
mod day_indicator;
mod feed;
mod game_data;
mod generate;
mod glitch;
mod log_line;
mod pane;
mod pending;
mod pause;
mod phase;
mod render;
mod rules;
mod rumors;
mod threats;
mod timestamp;
mod verb;
mod zone;

pub use chance::thread_rng;
pub use clock::DayClock;
pub use customer::{customer, Customer, CustomerId, CUSTOMER_COUNT};
pub use day_indicator::{
    day_digits, segment_index, segment_lit, Segment, ALL_SEGMENTS, DAY_DISPLAY_MAX, DIGIT_COUNT,
    DIGIT_SEGMENTS,
};
pub use feed::{queue_day_lines, tick_run, PaneFeed};
pub use game_data::{GameData, Tick, CORRUPTION_MAX};
pub use generate::{
    baking_line, call_line_with, corrupted_line, corrupted_line_with, day_marker, floor_line,
    generate, generate_from_roll, is_active, item_miscount_line, item_normal_line, ledger_line, mistake_beat, name_call,
    normal_line_for, normal_line_with, outside_body_pool, outside_line, pick_bucket, rule_reset_notice,
    rule_reset_notice_with, weights_for, Bucket, Draws, Weights,
};
pub use glitch::{
    glitch_kind_for, pick_glitch, GlitchKind, GLITCH_GLYPHS, GLITCH_GLYPH_COUNT,
};
pub use log_line::{resolve, Classification, LineFont, LogLine, Outcome};
pub use pane::Pane;
pub use pending::{Pending, PendingLine, WIPE_FULL};
pub use pause::{pause_option_line, PauseEffect, PauseOption, PauseState};
pub use phase::Phase;
pub use render::{
    body_glyphs, mark_glyph, CURSOR_BLANK, CURSOR_MARK, DELETE_WIPE_GLYPH, MARK_BLANK, MARK_STAMP,
};
pub use rules::{Context, RuleLedger, Verdict};
pub use rumors::{
    catalog, heard_rumor_line, rumor_line, stamped, Condition, Effect, ItemKind, RumorDef, RumorId,
    ThreatKind, CATALOG_LEN,
};
pub use threats::{
    deviation_line, deviation_threat_line, night_delivery_line, night_delivery_threat_line,
    DEVIATION_KINDS,
};
pub use timestamp::{even_minute_of, fill_n, fill_name, number_text, timestamp};
pub use verb::Verb;
pub use zone::Zone;
