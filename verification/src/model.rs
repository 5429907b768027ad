pub mod class_file;
