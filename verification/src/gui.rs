pub mod renderer;
