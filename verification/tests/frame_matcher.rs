use nanalive_link_receiver::frame_matcher::{
    select_plane_view_dimension, PendingAlphaFrames, PlaneViewDimension,
};

#[test]
fn delayed_decoder_output_matches_its_own_alpha_and_publishes_latest_pair() {
    let mut pending = PendingAlphaFrames::new(2);
    pending.insert(1_000, 1, vec![10]);
    assert!(pending.take_latest_matching(&[]).is_none());
    pending.insert(2_000, 2, vec![20]);
    let matched = pending.take_latest_matching(&[1_000, 2_000]).unwrap();
    assert_eq!(matched, (2_000, 2, vec![20]));
    assert!(pending.take_latest_matching(&[1_000]).is_none());
}

#[test]
fn pending_alpha_is_bounded_to_receiver_inflight_limit() {
    let mut pending = PendingAlphaFrames::new(2);
    pending.insert(1, 1, vec![1]);
    pending.insert(2, 2, vec![2]);
    pending.insert(3, 3, vec![3]);
    assert!(pending.take_latest_matching(&[1]).is_none());
    assert_eq!(pending.take_latest_matching(&[2]).unwrap().1, 2);
}

#[test]
fn plane_view_dimension_matches_texture_shape_and_validates_subresource() {
    assert_eq!(
        select_plane_view_dimension(1, 1, 0),
        Ok(PlaneViewDimension::Texture2D {
            most_detailed_mip: 0
        })
    );
    assert_eq!(
        select_plane_view_dimension(4, 2, 5),
        Ok(PlaneViewDimension::Texture2DArray {
            most_detailed_mip: 1,
            first_array_slice: 2
        })
    );
    assert!(select_plane_view_dimension(1, 1, 1).is_err());
    assert!(select_plane_view_dimension(2, 1, 2).is_err());
    assert!(select_plane_view_dimension(0, 1, 0).is_err());
    assert!(select_plane_view_dimension(1, 0, 0).is_err());
}

#[test]
fn plane_view_dimension_counts_subresources_up_to_32_bits() {
    assert_eq!(
        select_plane_view_dimension(u32::MAX, 2, u32::MAX - 1),
        Ok(PlaneViewDimension::Texture2DArray {
            most_detailed_mip: 0,
            first_array_slice: (u32::MAX - 1) / 2
        })
    );
    assert_eq!(
        select_plane_view_dimension(u32::MAX, 2, u32::MAX),
        Err("decoded D3D11 texture subresource is outside its texture")
    );
}

#[test]
fn an_earlier_plane_is_forgotten_with_the_match_and_a_later_one_is_kept() {
    let mut pending = PendingAlphaFrames::new(3);
    pending.insert(10, 1, vec![1]);
    pending.insert(20, 2, vec![2]);
    pending.insert(30, 3, vec![3]);
    assert_eq!(pending.len(), 3);
    assert_eq!(pending.take_latest_matching(&[20, 5]), Some((20, 2, vec![2])));
    assert_eq!(pending.len(), 1);
    assert_eq!(pending.take_latest_matching(&[10]), None);
    assert_eq!(pending.take_latest_matching(&[30]), Some((30, 3, vec![3])));
    assert_eq!(pending.len(), 0);
}

#[test]
fn a_plane_with_the_same_time_replaces_the_one_that_waits() {
    let mut pending = PendingAlphaFrames::new(2);
    pending.insert(10, 1, vec![1]);
    pending.insert(10, 2, vec![2]);
    assert_eq!(pending.len(), 1);
    assert_eq!(pending.take_latest_matching(&[10]), Some((10, 2, vec![2])));
}
