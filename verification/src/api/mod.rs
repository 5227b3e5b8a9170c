pub mod garage_door_controller;
