pub mod rounded_rect;
