pub mod iot_thing;
