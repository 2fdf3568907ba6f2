use mzmr::buffers::{AttributeBuffer, IndexBuffer};
use mzmr::cache::{CacheError, ResourceCache};
use mzmr::command::{copy_words, is_valid_dim};
use mzmr::gpu::{BindingState, GpuOp, TRIANGLES};

fn bits(v: &[f32]) -> Vec<u32> {
    v.iter().map(|x| x.to_bits()).collect()
}

fn s(x: &str) -> String {
    x.to_string()
}

#[test]
fn valid_dims() {
    assert!(!is_valid_dim(0));
    assert!(is_valid_dim(1));
    assert!(is_valid_dim(4));
    assert!(!is_valid_dim(5));
}

#[test]
fn copy_words_keeps_contents() {
    assert_eq!(copy_words(&vec![3, 1, 2]), vec![3, 1, 2]);
}

#[test]
fn first_upsert_creates_and_uploads() {
    let mut c = ResourceCache::new();
    let data = bits(&[1.0, 2.0, 3.0, 4.0]);
    let ops = c.upsert_buffer(&s("tri"), &s("position"), 2, &data).unwrap();
    assert_eq!(
        ops,
        vec![
            GpuOp::CreateAttributeBuffer { buffer: 0 },
            GpuOp::UploadAttributes { buffer: 0, data: data.clone() }
        ]
    );
    let b = c.lookup_buffer(&s("tri"), &s("position")).unwrap();
    assert_eq!(b.get_dim(), 2);
    assert_eq!(b.count, 2);
    assert_eq!(b.data, data);
}

#[test]
fn repeated_upserts_keep_one_entry_with_last_data() {
    let mut c = ResourceCache::new();
    for k in 0..5u32 {
        let data = bits(&[k as f32, 0.5, -1.0]);
        let ops = c.upsert_buffer(&s("ns"), &s("n"), 3, &data).unwrap();
        if k == 0 {
            assert_eq!(ops.len(), 2);
        } else {
            assert_eq!(ops, vec![GpuOp::UploadAttributes { buffer: 0, data: data.clone() }]);
        }
    }
    assert_eq!(c.attributes.len(), 1);
    let b = c.lookup_buffer(&s("ns"), &s("n")).unwrap();
    assert_eq!(b.data, bits(&[4.0, 0.5, -1.0]));
    assert_eq!(b.count, 1);
}

#[test]
fn dimension_mismatch_is_schema_violation() {
    let mut c = ResourceCache::new();
    let first = bits(&[1.0, 2.0]);
    c.upsert_buffer(&s("ns"), &s("n"), 2, &first).unwrap();
    let r = c.upsert_buffer(&s("ns"), &s("n"), 3, &bits(&[1.0, 2.0, 3.0]));
    assert_eq!(r, Err(CacheError::SchemaViolation { stored: 2, given: 3 }));
    let b = c.lookup_buffer(&s("ns"), &s("n")).unwrap();
    assert_eq!(b.data, first);
    assert_eq!(b.get_dim(), 2);
}

#[test]
fn new_buffer_needs_valid_dimension() {
    let mut c = ResourceCache::new();
    assert_eq!(
        c.upsert_buffer(&s("ns"), &s("n"), 0, &vec![]),
        Err(CacheError::InvalidDimension { dim: 0 })
    );
    assert_eq!(
        c.upsert_buffer(&s("ns"), &s("n"), 5, &vec![]),
        Err(CacheError::InvalidDimension { dim: 5 })
    );
    assert!(c.lookup_buffer(&s("ns"), &s("n")).is_none());
    assert!(c.attributes.is_empty());
}

#[test]
fn keys_are_namespace_and_name() {
    let mut c = ResourceCache::new();
    c.upsert_buffer(&s("a"), &s("n"), 1, &vec![1]).unwrap();
    c.upsert_buffer(&s("b"), &s("n"), 4, &vec![2, 2, 2, 2]).unwrap();
    c.upsert_buffer(&s("a"), &s("m"), 2, &vec![3, 3]).unwrap();
    assert_eq!(c.lookup_buffer(&s("a"), &s("n")).unwrap().data, vec![1]);
    assert_eq!(c.lookup_buffer(&s("b"), &s("n")).unwrap().buffer, 1);
    assert_eq!(c.lookup_buffer(&s("a"), &s("m")).unwrap().get_dim(), 2);
    assert!(c.lookup_buffer(&s("b"), &s("m")).is_none());
}

#[test]
fn indices_upsert_overwrites() {
    let mut c = ResourceCache::new();
    let ops = c.upsert_indices(&s("tri"), &s("indices"), TRIANGLES, &vec![0, 1, 2]);
    assert_eq!(
        ops,
        vec![
            GpuOp::CreateIndexBuffer { buffer: 0 },
            GpuOp::UploadIndices { buffer: 0, data: vec![0, 1, 2] }
        ]
    );
    let ops = c.upsert_indices(&s("tri"), &s("indices"), 1, &vec![0, 2]);
    assert_eq!(ops, vec![GpuOp::UploadIndices { buffer: 0, data: vec![0, 2] }]);
    let ib = c.lookup_indices(&s("tri"), &s("indices")).unwrap();
    assert_eq!(ib.count, 2);
    assert_eq!(ib.topology, 1);
    assert!(c.lookup_indices(&s("tri"), &s("other")).is_none());
    assert!(c.lookup_buffer(&s("tri"), &s("indices")).is_none());
}

#[test]
fn attribute_fill_counts_whole_elements() {
    let mut b = AttributeBuffer::new(3, 3);
    let op = b.fill(&vec![1, 2, 3, 4, 5, 6, 7]);
    assert_eq!(b.count, 2);
    assert_eq!(op, GpuOp::UploadAttributes { buffer: 3, data: vec![1, 2, 3, 4, 5, 6, 7] });
}

#[test]
fn attribute_bind_skips_when_bound() {
    let b = AttributeBuffer::new(1, 2);
    let other = AttributeBuffer::new(2, 4);
    let mut st = BindingState::new(4);
    let mut ops = Vec::new();
    b.bind_to_current_vao(3, &mut st, &mut ops);
    assert_eq!(ops, vec![GpuOp::BindAttribute { slot: 3, buffer: 1, dim: 2 }]);
    b.bind_to_current_vao(3, &mut st, &mut ops);
    assert_eq!(ops.len(), 1);
    other.bind_to_current_vao(3, &mut st, &mut ops);
    assert_eq!(
        &ops[1..],
        &[
            GpuOp::DisableAttribute { slot: 3 },
            GpuOp::BindAttribute { slot: 3, buffer: 2, dim: 4 }
        ][..]
    );
    assert_eq!(st.attrs[3], Some(2));
    assert!(st.is_enabled(3));
    assert!(!st.is_enabled(0));
    assert!(!st.is_enabled(9));
}

#[test]
fn clear_attr_only_disables_enabled_slots() {
    let mut st = BindingState::new(2);
    let mut ops = Vec::new();
    st.clear_attr(1, &mut ops);
    assert!(ops.is_empty());
    st.attrs[1] = Some(0);
    st.clear_attr(1, &mut ops);
    assert_eq!(ops, vec![GpuOp::DisableAttribute { slot: 1 }]);
    assert_eq!(st.attrs[1], None);
}

#[test]
fn index_draw_binds_once() {
    let mut ib = IndexBuffer::new(4);
    ib.fill(TRIANGLES, &vec![0, 1, 2, 2, 1, 3]);
    let mut st = BindingState::new(1);
    let mut ops = Vec::new();
    ib.draw(&mut st, &mut ops);
    ib.draw(&mut st, &mut ops);
    assert_eq!(
        ops,
        vec![
            GpuOp::BindIndices { buffer: 4 },
            GpuOp::DrawElements { topology: TRIANGLES, count: 6 },
            GpuOp::DrawElements { topology: TRIANGLES, count: 6 }
        ]
    );
}
