pub mod google;
