use vstd::prelude::*;

pub mod rgb;
pub mod rle;
pub mod font;
pub mod lang;
pub mod text;
pub mod settings;
pub mod pwm;
pub mod button;
pub mod rotenc;
pub mod profiler;
pub mod queue;
pub mod ili9341;
pub mod menu;
pub mod net;
pub mod led;
pub mod handlers;
pub mod screens;
pub mod wizard;
pub mod lcd;
pub mod http;
pub mod pwm_timed;
pub mod layout;
pub mod textbox;
pub mod components;
