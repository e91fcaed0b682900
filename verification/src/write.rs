mod writer;

pub use writer::Writer;
pub use writer::render_stack;
pub use writer::concat_all;
pub use writer::spec_write;
