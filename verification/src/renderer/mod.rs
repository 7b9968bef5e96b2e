pub mod webgl;
