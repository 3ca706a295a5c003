use nexg::{version_string, vulkan_version};

#[test]
fn version_string_of_a_packed_version() {
    assert_eq!(version_string(ash::vk::make_api_version(0, 1, 3, 250)), "1.3.250");
}

#[test]
fn version_string_of_zero() {
    assert_eq!(version_string(0), "0.0.0");
}

#[test]
fn version_string_of_the_largest_parts() {
    assert_eq!(version_string(ash::vk::make_api_version(0, 127, 1023, 4095)), "127.1023.4095");
    assert_eq!(version_string(0x1fff_ffff), "127.1023.4095");
}

#[test]
fn version_string_ignores_the_variant_bits() {
    assert_eq!(version_string(ash::vk::make_api_version(5, 1, 2, 3)), "1.2.3");
    assert_eq!(version_string(u32::MAX), "127.1023.4095");
}

#[test]
fn version_string_of_the_named_versions() {
    assert_eq!(version_string(ash::vk::API_VERSION_1_0), "1.0.0");
    assert_eq!(version_string(ash::vk::API_VERSION_1_1), "1.1.0");
    assert_eq!(version_string(ash::vk::API_VERSION_1_2), "1.2.0");
    assert_eq!(version_string(ash::vk::API_VERSION_1_3), "1.3.0");
}

#[test]
fn version_string_writes_numerals_without_padding() {
    assert_eq!(version_string(ash::vk::make_api_version(0, 10, 100, 1000)), "10.100.1000");
    assert_eq!(version_string(ash::vk::make_api_version(0, 9, 99, 999)), "9.99.999");
    assert_eq!(version_string(ash::vk::make_api_version(0, 0, 0, 7)), "0.0.7");
}

#[test]
fn version_string_orders_major_minor_patch() {
    assert_eq!(version_string(1 << 22), "1.0.0");
    assert_eq!(version_string(1 << 12), "0.1.0");
    assert_eq!(version_string(1), "0.0.1");
}

#[test]
fn reported_version_is_rendered() {
    let reported = Ok(Some(ash::vk::make_api_version(0, 1, 3, 204)));
    assert_eq!(vulkan_version(reported), Some(String::from("1.3.204")));
}

#[test]
fn loader_without_the_query_has_no_version() {
    assert_eq!(vulkan_version(Ok(None)), None);
}

#[test]
fn failed_query_has_no_version() {
    assert_eq!(vulkan_version(Err(ash::vk::Result::ERROR_OUT_OF_HOST_MEMORY)), None);
}
