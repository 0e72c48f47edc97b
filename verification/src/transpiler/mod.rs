pub mod transform;
