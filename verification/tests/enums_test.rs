use beans_engine::enums::{
    AccessorType, AnimationChannelTargetPath, AnimationSamplerInterpolationType, BufferViewTarget,
    CameraType, ComponentType, ImageMimeType, MaterialAlphaMode, MeshPrimitiveMode, SamplerFilter,
    SamplerWrap, Undefinable,
};

#[test]
fn target_path_round_trip() {
    for (text, v) in [
        ("translation", AnimationChannelTargetPath::Translation),
        ("rotation", AnimationChannelTargetPath::Rotation),
        ("scale", AnimationChannelTargetPath::Scale),
        ("weights", AnimationChannelTargetPath::Weights),
    ] {
        assert_eq!(AnimationChannelTargetPath::from(String::from(text)), v);
        let back: &str = v.into();
        assert_eq!(back, text);
        assert!(!v.is_undefined());
    }
    let bad = AnimationChannelTargetPath::from(String::from("Translation"));
    assert_eq!(bad, AnimationChannelTargetPath::Undefined);
    assert!(bad.is_undefined());
    let empty: &str = AnimationChannelTargetPath::Undefined.into();
    assert_eq!(empty, "");
}

#[test]
fn accessor_type_texts() {
    for (text, v) in [
        ("VEC2", AccessorType::Vec2),
        ("VEC3", AccessorType::Vec3),
        ("VEC4", AccessorType::Vec4),
        ("MAT2", AccessorType::Mat2),
        ("MAT3", AccessorType::Mat3),
        ("MAT4", AccessorType::Mat4),
        ("SCALAR", AccessorType::Scalar),
    ] {
        assert_eq!(AccessorType::from(String::from(text)), v);
        let back: &str = v.into();
        assert_eq!(back, text);
    }
    assert!(AccessorType::from(String::from("vec2")).is_undefined());
}

#[test]
fn interpolation_alpha_camera_mime_texts() {
    assert_eq!(
        AnimationSamplerInterpolationType::from(String::from("CUBICSPLINE")),
        AnimationSamplerInterpolationType::CubicSpline
    );
    assert_eq!(
        AnimationSamplerInterpolationType::from(String::from("STEP")),
        AnimationSamplerInterpolationType::Step
    );
    assert_eq!(MaterialAlphaMode::from(String::from("MASK")), MaterialAlphaMode::Mask);
    assert_eq!(MaterialAlphaMode::from(String::from("BLEND")), MaterialAlphaMode::Blend);
    assert!(MaterialAlphaMode::from(String::from("opaque")).is_undefined());
    assert_eq!(CameraType::from(String::from("orthographic")), CameraType::Orthographic);
    assert_eq!(ImageMimeType::from(String::from("image/png")), ImageMimeType::Png);
    assert!(ImageMimeType::from(String::from("image/gif")).is_undefined());
    let t: &str = ImageMimeType::Jpeg.into();
    assert_eq!(t, "image/jpeg");
    let c: &str = CameraType::Perspective.into();
    assert_eq!(c, "perspective");
}

#[test]
fn defaults_of_enums() {
    assert_eq!(
        AnimationSamplerInterpolationType::default(),
        AnimationSamplerInterpolationType::Linear
    );
    assert_eq!(MaterialAlphaMode::default(), MaterialAlphaMode::Opaque);
    assert_eq!(SamplerWrap::default(), SamplerWrap::Repeat);
}

#[test]
fn component_type_codes() {
    for (code, v) in [
        (5120usize, ComponentType::Byte),
        (5121, ComponentType::UnsignedByte),
        (5122, ComponentType::Short),
        (5123, ComponentType::UnsignedShort),
        (5125, ComponentType::UnsignedInt),
        (5126, ComponentType::Float),
    ] {
        assert_eq!(ComponentType::from(code), v);
        assert_eq!(usize::from(v), code);
        assert_eq!(u64::from(v), code as u64);
    }
    assert!(ComponentType::from(5124usize).is_undefined());
    assert_eq!(usize::from(ComponentType::Undefined), 0);
}

#[test]
fn other_numeric_codes() {
    assert_eq!(BufferViewTarget::from(34962usize), BufferViewTarget::ArrayBuffer);
    assert_eq!(BufferViewTarget::from(34963usize), BufferViewTarget::ElementArrayBuffer);
    assert!(BufferViewTarget::from(0usize).is_undefined());
    assert_eq!(MeshPrimitiveMode::from(0usize), MeshPrimitiveMode::Points);
    assert_eq!(MeshPrimitiveMode::from(4usize), MeshPrimitiveMode::Triangles);
    assert!(MeshPrimitiveMode::from(7usize).is_undefined());
    assert_eq!(u64::from(MeshPrimitiveMode::TriangleFan), 6);
    assert_eq!(SamplerFilter::from(9729usize), SamplerFilter::Linear);
    assert_eq!(SamplerFilter::from(9987usize), SamplerFilter::LinearMipmapLinear);
    assert_eq!(usize::from(SamplerFilter::Nearest), 9728);
    assert_eq!(SamplerWrap::from(33648usize), SamplerWrap::MirroredRepeat);
    assert_eq!(u64::from(SamplerWrap::ClampToEdge), 33071);
    assert!(SamplerWrap::from(1usize).is_undefined());
}
