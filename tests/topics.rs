use mzmr::topic::{
    frame_topic, instance_topic, is_render_topic, names_frame, push_decimal, random_instance_topic,
    render_topic,
};

#[test]
fn render_topic_bytes() {
    assert_eq!(render_topic(), b"render/".to_vec());
}

#[test]
fn frame_topic_single_digit() {
    assert_eq!(frame_topic(5), b"render/frame/5/".to_vec());
}

#[test]
fn frame_topic_several_digits() {
    assert_eq!(frame_topic(0), b"render/frame/0/".to_vec());
    assert_eq!(frame_topic(1203), b"render/frame/1203/".to_vec());
    assert_eq!(frame_topic(u32::MAX), b"render/frame/4294967295/".to_vec());
}

#[test]
fn decimal_appends() {
    let mut v = b"x".to_vec();
    push_decimal(&mut v, 90);
    assert_eq!(v, b"x90".to_vec());
}

#[test]
fn instance_topic_is_sixteen_hex_digits() {
    assert_eq!(instance_topic(0xAB), b"@00000000000000AB/".to_vec());
    assert_eq!(instance_topic(0x0123_4567_89AB_CDEF), b"@0123456789ABCDEF/".to_vec());
    assert_eq!(instance_topic(u64::MAX), b"@FFFFFFFFFFFFFFFF/".to_vec());
}

#[test]
fn random_instance_topic_shape() {
    let t = random_instance_topic();
    assert_eq!(t.len(), 18);
    assert_eq!(t[0], b'@');
    assert_eq!(t[17], b'/');
    assert!(t[1..17].iter().all(|c| c.is_ascii_digit() || (b'A'..=b'F').contains(c)));
}

#[test]
fn render_prefix_detection() {
    assert!(is_render_topic(b"render/"));
    assert!(is_render_topic(b"render/frame/3/"));
    assert!(!is_render_topic(b"render"));
    assert!(!is_render_topic(b"renderx/"));
    assert!(!is_render_topic(b"@0000000000000001/"));
    assert!(!is_render_topic(b""));
}

#[test]
fn frame_suffix_detection() {
    assert!(names_frame(b"render/frame/12/", 12));
    assert!(!names_frame(b"render/frame/12/", 32));
    assert!(!names_frame(b"render/frame/12", 12));
    assert!(names_frame(b"2/", 2));
    assert!(!names_frame(b"/", 2));
}
