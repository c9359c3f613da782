use engine::light::{
    base_light_uniform, directional_light_uniform, point_light_uniform, spot_light_uniform,
    uniform_bytes, LightBufferManager, LightKind, COUNT_HEADER_OFFSET, LIGHT_BUFFER_SIZE,
    MAX_DIRECTIONAL_LIGHTS, MAX_POINT_LIGHTS, MAX_SPOT_LIGHTS,
};

fn ne_bytes(words: &[u32]) -> Vec<u8> {
    words.iter().flat_map(|w| w.to_ne_bytes()).collect()
}

#[test]
fn point_and_spot_offsets_follow_the_earlier_arrays() {
    assert_eq!(LightBufferManager::calculate_buffer_offset(&LightKind::Point, 0), 16 + 10 * 32);
    assert_eq!(LightBufferManager::calculate_buffer_offset(&LightKind::Point, 0), 336);
    assert_eq!(LightBufferManager::calculate_buffer_offset(&LightKind::Spot, 0), 336 + 256 * 48);
    assert_eq!(LightBufferManager::calculate_buffer_offset(&LightKind::Spot, 0), 12624);
}

#[test]
fn ambient_and_directional_offsets() {
    assert_eq!(LightBufferManager::calculate_buffer_offset(&LightKind::Ambient, 0), 0);
    assert_eq!(LightBufferManager::calculate_buffer_offset(&LightKind::Directional, 0), 16);
    assert_eq!(LightBufferManager::calculate_buffer_offset(&LightKind::Directional, 3), 16 + 3 * 32);
    assert_eq!(LightBufferManager::calculate_buffer_offset(&LightKind::Point, 5), 336 + 5 * 48);
    assert_eq!(LightBufferManager::calculate_buffer_offset(&LightKind::Spot, 255), 12624 + 255 * 64);
}

#[test]
fn layout_is_contiguous_for_every_slot() {
    let kinds = [LightKind::Ambient, LightKind::Directional, LightKind::Point, LightKind::Spot];
    let mut expected = 0usize;
    for kind in kinds.iter() {
        for i in 0..kind.capacity() {
            assert_eq!(LightBufferManager::calculate_buffer_offset(kind, i), expected);
            expected += kind.uniform_size();
        }
    }
    assert_eq!(expected, COUNT_HEADER_OFFSET);
    assert_eq!(LightBufferManager::calculate_buffer_offset(&LightKind::Spot, MAX_SPOT_LIGHTS), 29008);
    assert_eq!(LIGHT_BUFFER_SIZE, 29024);
}

#[test]
fn capacities_and_uniform_sizes() {
    assert_eq!(LightKind::Ambient.capacity(), 1);
    assert_eq!(LightKind::Directional.capacity(), MAX_DIRECTIONAL_LIGHTS);
    assert_eq!(LightKind::Point.capacity(), MAX_POINT_LIGHTS);
    assert_eq!(LightKind::Spot.capacity(), 256);
    assert_eq!(LightKind::Ambient.uniform_size(), 16);
    assert_eq!(LightKind::Directional.uniform_size(), 32);
    assert_eq!(LightKind::Point.uniform_size(), 48);
    assert_eq!(LightKind::Spot.uniform_size(), 64);
}

#[test]
fn light_write_goes_to_its_slot() {
    let manager = LightBufferManager::new();
    let data: Vec<u8> = (0..48u8).collect();
    let w = manager.update_light_buffer(LightKind::Point, 2, data.clone());
    assert_eq!(w.offset, 336 + 2 * 48);
    assert_eq!(w.data, data);
}

#[test]
fn count_header_write_holds_the_counts() {
    let mut manager = LightBufferManager::new();
    manager.ambient_count += 1;
    manager.spot_count += 1;
    manager.point_count += 2;
    let w = manager.update_light_counts();
    assert_eq!(w.offset, 29008);
    assert_eq!(w.data, ne_bytes(&[1, 0, 2, 1]));
}

#[test]
fn new_manager_counts_zero() {
    let manager = LightBufferManager::new();
    assert_eq!(manager.ambient_count, 0);
    assert_eq!(manager.directional_count, 0);
    assert_eq!(manager.point_count, 0);
    assert_eq!(manager.spot_count, 0);
    assert_eq!(manager.update_light_counts().data, vec![0u8; 16]);
}

#[test]
fn initial_contents_are_zero() {
    let bytes = LightBufferManager::initial_contents();
    assert_eq!(bytes.len(), 29024);
    assert!(bytes.iter().all(|b| *b == 0));
}

#[test]
fn base_uniform_is_color_then_strength() {
    let color = [1.0f32.to_bits(), 0.5f32.to_bits(), 0.25f32.to_bits()];
    let u = base_light_uniform(color, 0.01f32.to_bits());
    assert_eq!(u, [color[0], color[1], color[2], 0.01f32.to_bits()]);
    let bytes = uniform_bytes(&u);
    assert_eq!(bytes.len(), 16);
    assert_eq!(bytes, ne_bytes(&u));
    assert_eq!(&bytes[0..4], &1.0f32.to_ne_bytes());
}

#[test]
fn directional_uniform_pads_after_direction() {
    let u = directional_light_uniform([1, 2, 3, 4], [5, 6, 7]);
    assert_eq!(u, [1, 2, 3, 4, 5, 6, 7, 0]);
    assert_eq!(uniform_bytes(&u).len(), 32);
}

#[test]
fn point_uniform_pads_each_vector() {
    let u = point_light_uniform([1, 2, 3], [4, 5, 6], [7, 8, 9]);
    assert_eq!(u, [1, 2, 3, 0, 4, 5, 6, 0, 7, 8, 9, 0]);
    assert_eq!(uniform_bytes(&u).len(), 48);
}

#[test]
fn spot_uniform_appends_direction_and_cutoff() {
    let p = point_light_uniform([1, 2, 3], [4, 5, 6], [7, 8, 9]);
    let cos = 30.0f32.to_radians().cos().to_bits();
    let u = spot_light_uniform(p, [10, 11, 12], cos);
    assert_eq!(u, [1, 2, 3, 0, 4, 5, 6, 0, 7, 8, 9, 0, 10, 11, 12, cos]);
    let bytes = uniform_bytes(&u);
    assert_eq!(bytes.len(), 64);
    assert_eq!(bytes, ne_bytes(&u));
}
