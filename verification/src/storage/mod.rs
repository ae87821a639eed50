pub mod material_file_storage;
