use game_math::primitives::Primitive;

#[test]
fn cube_mesh_shape() {
    let (shape, indices) = Primitive::cube();

    assert_eq!(shape.len(), 24);
    assert_eq!(indices.len(), 36);
    for index in indices.iter() {
        assert!((*index as usize) < shape.len());
    }
    assert_eq!(shape[0].position, [0.5f32.to_bits(); 3]);
    assert_eq!(shape[23].position, [(-0.5f32).to_bits(); 3]);
}
