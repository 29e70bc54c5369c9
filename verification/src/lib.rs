//! Verified core of a video player: clocks, queues, schedulers and the rules
//! that decide what is shown, what is heard and what is reported.

pub mod address;
pub mod android_import;
pub mod android_laws;
pub mod audio;
pub mod audio_laws;
pub mod audio_player;
pub mod audio_ring_buffer;
pub mod core_refresh;
pub mod decode_loop;
pub mod decode_task;
pub mod decoder_laws;
pub mod demo;
pub mod dmabuf;
pub mod format_laws;
pub mod frame_queue;
pub mod frame_scheduler;
pub mod frame_selection;
pub mod gpui_video_player;
pub mod gst_decoder;
pub mod gst_pipeline;
pub mod gst_run;
pub mod linux_refresh;
pub mod mailbox;
pub mod measure_laws;
pub mod network;
pub mod pacing_laws;
pub mod playback_laws;
pub mod player;
pub mod player_laws;
pub mod presentation;
pub mod presentation_laws;
pub mod refresh_laws;
pub mod run_laws;
pub mod scheduler_laws;
pub mod scheduler_stall;
pub mod scheduler_sync;
pub mod scheduler_timing;
pub mod session;
pub mod sync_laws;
pub mod sync_metrics;
pub mod text;
pub mod thread_laws;
pub mod time;
pub mod timing_laws;
pub mod video;
pub mod web_moq_url;
pub mod web_video;
pub mod window_laws;
pub mod wrapping;
