pub mod paperclip_adjacent;
