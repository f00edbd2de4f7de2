//! The opaque-handle lifecycle: creation, access, destruction, and
//! ownership transfer between object kinds.

use equistore_core::boundary::Boundary;
use equistore_core::EQS_INVALID_PARAMETER_ERROR;
use equistore_core::EQS_SUCCESS;

#[test]
fn create_returns_a_usable_handle() {
    let mut boundary = Boundary::new();
    let mut handle: u64 = 0;
    let status = boundary.labels_create(2, 5, &mut handle);
    assert_eq!(status, EQS_SUCCESS);
    assert_ne!(handle, 0);

    let mut count: u64 = 0;
    let status = boundary.labels_count(handle, &mut count);
    assert_eq!(status, EQS_SUCCESS);
    assert_eq!(count, 5);
}

#[test]
fn create_rejects_invalid_parameters() {
    let mut boundary = Boundary::new();

    let mut handle: u64 = 0;
    let status = boundary.labels_create(-1, 5, &mut handle);
    assert_eq!(status, EQS_INVALID_PARAMETER_ERROR);
    assert_eq!(handle, 0, "no handle is produced on failure");
    assert!(!boundary.last_error().is_empty());

    let status = boundary.labels_create(2, -5, &mut handle);
    assert_eq!(status, EQS_INVALID_PARAMETER_ERROR);
    assert_eq!(handle, 0);

    // a zero-dimensional set cannot have entries
    let status = boundary.labels_create(0, 1, &mut handle);
    assert_eq!(status, EQS_INVALID_PARAMETER_ERROR);
    assert_eq!(handle, 0);

    // but an empty zero-dimensional set is fine
    let status = boundary.labels_create(0, 0, &mut handle);
    assert_eq!(status, EQS_SUCCESS);
    assert_ne!(handle, 0);
}

#[test]
fn access_rejects_a_null_handle() {
    let mut boundary = Boundary::new();
    let mut count: u64 = 7;
    let status = boundary.labels_count(0, &mut count);
    assert_eq!(status, EQS_INVALID_PARAMETER_ERROR);
    assert_eq!(count, 7, "the output is untouched on failure");
    assert!(!boundary.last_error().is_empty());
}

#[test]
fn resize_mutates_in_place() {
    let mut boundary = Boundary::new();
    let mut handle: u64 = 0;
    assert_eq!(boundary.labels_create(3, 4, &mut handle), EQS_SUCCESS);

    assert_eq!(boundary.labels_resize(handle, 9), EQS_SUCCESS);
    let mut count: u64 = 0;
    assert_eq!(boundary.labels_count(handle, &mut count), EQS_SUCCESS);
    assert_eq!(count, 9);

    assert_eq!(boundary.labels_resize(handle, -1), EQS_INVALID_PARAMETER_ERROR);
    assert_eq!(boundary.labels_resize(0, 9), EQS_INVALID_PARAMETER_ERROR);

    let mut empty: u64 = 0;
    assert_eq!(boundary.labels_create(0, 0, &mut empty), EQS_SUCCESS);
    assert_eq!(boundary.labels_resize(empty, 2), EQS_INVALID_PARAMETER_ERROR);
}

#[test]
fn destroying_a_null_handle_is_a_no_op() {
    let mut boundary = Boundary::new();
    assert_eq!(boundary.labels_destroy(0), EQS_SUCCESS);
    assert_eq!(boundary.block_destroy(0), EQS_SUCCESS);
    assert_eq!(boundary.tensormap_destroy(0), EQS_SUCCESS);
}

#[test]
fn destroying_a_live_handle_invalidates_only_it() {
    let mut boundary = Boundary::new();
    let mut first: u64 = 0;
    let mut second: u64 = 0;
    assert_eq!(boundary.labels_create(1, 1, &mut first), EQS_SUCCESS);
    assert_eq!(boundary.labels_create(2, 2, &mut second), EQS_SUCCESS);
    assert_ne!(first, second);

    assert_eq!(boundary.labels_destroy(first), EQS_SUCCESS);

    let mut count: u64 = 0;
    assert_eq!(boundary.labels_count(second, &mut count), EQS_SUCCESS);
    assert_eq!(count, 2);
}

#[test]
fn block_creation_transfers_label_ownership() {
    let mut boundary = Boundary::new();
    let mut samples: u64 = 0;
    let mut properties: u64 = 0;
    assert_eq!(boundary.labels_create(1, 10, &mut samples), EQS_SUCCESS);
    assert_eq!(boundary.labels_create(2, 3, &mut properties), EQS_SUCCESS);

    let mut block: u64 = 0;
    let status = boundary.block_create(samples, properties, &mut block);
    assert_eq!(status, EQS_SUCCESS);
    assert_ne!(block, 0);

    // the labels moved into the block; the caller only destroys the block
    assert_eq!(boundary.block_destroy(block), EQS_SUCCESS);
}

#[test]
fn block_creation_rejects_bad_handles() {
    let mut boundary = Boundary::new();
    let mut labels: u64 = 0;
    assert_eq!(boundary.labels_create(1, 1, &mut labels), EQS_SUCCESS);

    let mut block: u64 = 0;
    assert_eq!(
        boundary.block_create(0, labels, &mut block),
        EQS_INVALID_PARAMETER_ERROR
    );
    assert_eq!(
        boundary.block_create(labels, 0, &mut block),
        EQS_INVALID_PARAMETER_ERROR
    );
    assert_eq!(
        boundary.block_create(labels, labels, &mut block),
        EQS_INVALID_PARAMETER_ERROR
    );
    assert_eq!(block, 0);

    // the labels stayed with the caller after every failure
    let mut count: u64 = 0;
    assert_eq!(boundary.labels_count(labels, &mut count), EQS_SUCCESS);
}

#[test]
fn destroying_the_outer_object_releases_the_composed_inner_objects() {
    let mut boundary = Boundary::new();

    let mut keys: u64 = 0;
    assert_eq!(boundary.labels_create(1, 2, &mut keys), EQS_SUCCESS);

    let mut blocks = Vec::new();
    for _ in 0..2 {
        let mut samples: u64 = 0;
        let mut properties: u64 = 0;
        assert_eq!(boundary.labels_create(1, 4, &mut samples), EQS_SUCCESS);
        assert_eq!(boundary.labels_create(1, 2, &mut properties), EQS_SUCCESS);
        let mut block: u64 = 0;
        assert_eq!(
            boundary.block_create(samples, properties, &mut block),
            EQS_SUCCESS
        );
        blocks.push(block);
    }

    let mut tensor: u64 = 0;
    let status = boundary.tensormap_create(keys, &blocks, &mut tensor);
    assert_eq!(status, EQS_SUCCESS);
    assert_ne!(tensor, 0);

    let mut count: u64 = 0;
    assert_eq!(boundary.tensormap_block_count(tensor, &mut count), EQS_SUCCESS);
    assert_eq!(count, 2);

    // the keys and both blocks were moved into the map: destroying the map
    // releases them all, and the caller never destroys them independently
    assert_eq!(boundary.tensormap_destroy(tensor), EQS_SUCCESS);
}

#[test]
fn tensor_map_creation_rejects_bad_handles() {
    let mut boundary = Boundary::new();

    let mut keys: u64 = 0;
    assert_eq!(boundary.labels_create(1, 1, &mut keys), EQS_SUCCESS);

    let mut samples: u64 = 0;
    let mut properties: u64 = 0;
    assert_eq!(boundary.labels_create(1, 1, &mut samples), EQS_SUCCESS);
    assert_eq!(boundary.labels_create(1, 1, &mut properties), EQS_SUCCESS);
    let mut block: u64 = 0;
    assert_eq!(
        boundary.block_create(samples, properties, &mut block),
        EQS_SUCCESS
    );

    let mut tensor: u64 = 0;
    assert_eq!(
        boundary.tensormap_create(0, &vec![block], &mut tensor),
        EQS_INVALID_PARAMETER_ERROR
    );
    assert_eq!(
        boundary.tensormap_create(keys, &vec![block, 0], &mut tensor),
        EQS_INVALID_PARAMETER_ERROR
    );
    assert_eq!(
        boundary.tensormap_create(keys, &vec![block, block], &mut tensor),
        EQS_INVALID_PARAMETER_ERROR
    );
    assert_eq!(tensor, 0);

    // everything stayed with the caller; the valid composition still works
    let status = boundary.tensormap_create(keys, &vec![block], &mut tensor);
    assert_eq!(status, EQS_SUCCESS);
    assert_eq!(boundary.tensormap_destroy(tensor), EQS_SUCCESS);
}

#[test]
fn null_handle_queries_on_tensor_maps_fail() {
    let mut boundary = Boundary::new();
    let mut count: u64 = 3;
    let status = boundary.tensormap_block_count(0, &mut count);
    assert_eq!(status, EQS_INVALID_PARAMETER_ERROR);
    assert_eq!(count, 3);
}
