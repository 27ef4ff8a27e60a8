use render_core::linear_2d_vec::Linear2dVec;
use render_core::models::{ColorModelProperties, ColorModels, Models, TexModels};
use render_core::partition::Partition;
use render_core::textures::Textures;
use render_core::tiers::{
    build_draw_calls, build_instance_properties, compute_dispatch_groups, constant_tier_layout,
    dyn_merge_binding, merged_tier_slot_size, staging_copy_plan, static_merge_binding,
    BufferRange, DrawCall, HostWritableTier, InstProperties, StagingCopy, TierError,
    COMPUTE_LOCAL_GROUP_SIZE, MATRIX_INSTANCE_BYTES,
};

#[test]
fn one_model_scene_has_expected_properties() {
    // one model with 4 vertices and 6 indices, one static instance
    let vertices = vec![vec![1u64, 2, 3, 4]];
    let indices = vec![vec![0u16, 1, 2, 2, 3, 0]];
    let models = ColorModels::load(vertices, indices);
    let props = models.into_properties();
    assert_eq!(props.len(), 1);
    assert_eq!(
        props[0],
        ColorModelProperties { vertex_count: 4, vertex_offset: 0, index_count: 6, index_offset: 0 }
    );

    let instance_table = Linear2dVec::from_vec(vec![vec![0u8]]);
    let inst = build_instance_properties(&instance_table.parts_iter(), &vec![0]);
    assert_eq!(inst, vec![InstProperties { inst_count: 1, inst_offset: 0, model_i: 0 }]);
}

#[test]
fn model_properties_follow_the_partition_table() {
    let vertices = vec![vec![0u64; 4], vec![0u64; 8]];
    let indices = vec![vec![0u16; 12], vec![0u16; 36]];
    let models = ColorModels::load(vertices, indices);
    let props = models.into_properties();
    assert_eq!(props.len(), 2);
    assert_eq!(props[0].vertex_count, 4);
    assert_eq!(props[0].vertex_offset, 0);
    assert_eq!(props[1].vertex_count, 8);
    assert_eq!(props[1].vertex_offset, 4);
    assert_eq!(props[1].index_count, 36);
    assert_eq!(props[1].index_offset, 12);
}

#[test]
fn tex_model_properties_carry_texture_ranges() {
    let textures = Textures::load(vec![vec![7u8; 100], vec![7u8; 40]]);
    let models = TexModels::load(vec![vec![0u32; 5]], vec![vec![0u16; 9]]);
    let props = models.into_properties(&textures, &vec![1]);
    assert_eq!(props.len(), 1);
    assert_eq!(props[0].vertex_count, 5);
    assert_eq!(props[0].index_count, 9);
    assert_eq!(props[0].tex_size, 40);
    assert_eq!(props[0].tex_offset, 100);
}

#[test]
fn combined_models_expose_both_families() {
    let color = ColorModels::load(vec![vec![0u64; 3]], vec![vec![0u16; 3]]);
    let tex = TexModels::load(vec![vec![0u32; 2]], vec![vec![0u16; 6]]);
    let textures = Textures::load(vec![vec![1u8; 16]]);
    let all = Models::load(color, tex);
    let props = all.into_properties(&textures, &vec![0]);
    assert_eq!(props.color.len(), 1);
    assert_eq!(props.tex.len(), 1);
    assert_eq!(props.color[0].vertex_count, 3);
    assert_eq!(props.tex[0].tex_size, 16);
}

#[test]
fn texture_atlas_partitions_bytes() {
    let textures = Textures::load(vec![vec![1u8, 2, 3], vec![4u8, 5]]);
    assert_eq!(textures.part(0).deconstruct(), (3, 0));
    assert_eq!(textures.part(1).deconstruct(), (2, 3));
    assert_eq!(textures.data().len(), 5);
}

#[test]
fn constant_tier_layout_is_exact() {
    let layout = constant_tier_layout(4, 5, 6, 9, 1, 2);
    assert_eq!(layout.color_vertex_offset, 0);
    assert_eq!(layout.tex_vertex_offset, 96); // 4 * 24
    assert_eq!(layout.vertex_size, 96 + 160); // + 5 * 32
    assert_eq!(layout.color_index_offset, 0);
    assert_eq!(layout.tex_index_offset, 12); // 6 * 2
    assert_eq!(layout.index_size, 30); // 2 * (6 + 9)
    assert_eq!(layout.color_inst_part, Partition { size: 64, offset: 0 });
    assert_eq!(layout.tex_inst_part, Partition { size: 128, offset: 64 });
    assert_eq!(layout.inst_size, 192);
    assert_eq!(layout.total_size, 256 + 30 + 192);
}

#[test]
fn exceeding_max_dynamic_instances_is_a_caller_error() {
    let tier = HostWritableTier::new(16);
    let r = tier.prepare_instance_write(17);
    assert_eq!(r.unwrap_err(), TierError::MaxInstanceCountExceeded);
}

#[test]
fn instance_write_within_bound_is_described_exactly() {
    let tier = HostWritableTier::new(16);
    let w = tier.prepare_instance_write(16).unwrap();
    assert_eq!(w.byte_offset, 0);
    assert_eq!(w.byte_size, 16 * MATRIX_INSTANCE_BYTES);
    assert_eq!(tier.slot_byte_size(), 16 * MATRIX_INSTANCE_BYTES);
}

#[test]
fn merged_tier_holds_static_plus_dynamic() {
    assert_eq!(merged_tier_slot_size(2, 16), 18 * MATRIX_INSTANCE_BYTES);
}

#[test]
fn draw_calls_cover_static_then_dynamic_ranges() {
    let model_props = vec![
        ColorModelProperties { vertex_count: 4, vertex_offset: 0, index_count: 6, index_offset: 0 },
        ColorModelProperties {
            vertex_count: 8,
            vertex_offset: 4,
            index_count: 36,
            index_offset: 6,
        },
    ];
    let static_inst = vec![
        InstProperties { inst_count: 1, inst_offset: 0, model_i: 0 },
        InstProperties { inst_count: 1, inst_offset: 1, model_i: 1 },
    ];
    let dyn_inst = vec![InstProperties { inst_count: 3, inst_offset: 0, model_i: 1 }];
    let calls = build_draw_calls(&model_props, &static_inst, &dyn_inst, 2);
    assert_eq!(calls.len(), 3);
    assert_eq!(
        calls[0],
        DrawCall {
            index_count: 6,
            instance_count: 1,
            first_index: 0,
            vertex_offset: 0,
            first_instance: 0,
        }
    );
    assert_eq!(
        calls[1],
        DrawCall {
            index_count: 36,
            instance_count: 1,
            first_index: 6,
            vertex_offset: 4,
            first_instance: 1,
        }
    );
    // dynamic ranges draw after every static record
    assert_eq!(
        calls[2],
        DrawCall {
            index_count: 36,
            instance_count: 3,
            first_index: 6,
            vertex_offset: 4,
            first_instance: 2,
        }
    );
}

#[test]
fn dispatch_groups_cover_every_instance() {
    assert_eq!(compute_dispatch_groups(0), 1);
    assert_eq!(compute_dispatch_groups(63), 1);
    assert_eq!(compute_dispatch_groups(64), 2);
    assert_eq!(compute_dispatch_groups(100), 2);
    for count in [0u32, 1, 63, 64, 65, 1000] {
        assert!(compute_dispatch_groups(count) * COMPUTE_LOCAL_GROUP_SIZE > count);
    }
}

#[test]
fn staging_copies_land_in_their_regions() {
    let layout = constant_tier_layout(4, 5, 6, 9, 1, 2);
    // the three buffers bound at aligned offsets inside one allocation
    let copies = staging_copy_plan(&layout, 0, 512, 768);
    assert_eq!(copies.len(), 5);
    assert_eq!(copies[0], StagingCopy { dst_offset: 0, size: 96 });
    assert_eq!(copies[1], StagingCopy { dst_offset: 96, size: 160 });
    assert_eq!(copies[2], StagingCopy { dst_offset: 512, size: 12 });
    assert_eq!(copies[3], StagingCopy { dst_offset: 524, size: 18 });
    assert_eq!(copies[4], StagingCopy { dst_offset: 768, size: 192 });
}

#[test]
fn merge_bindings_pack_static_then_dynamic() {
    let static_size = 2 * MATRIX_INSTANCE_BYTES;
    let st = static_merge_binding(static_size);
    assert_eq!(st.source, BufferRange { offset: 0, range: static_size });
    assert_eq!(st.dest, BufferRange { offset: 0, range: static_size });
    let dy = dyn_merge_binding(static_size, 3);
    assert_eq!(dy.source, BufferRange { offset: 0, range: 3 * MATRIX_INSTANCE_BYTES });
    assert_eq!(dy.dest, BufferRange { offset: static_size, range: 3 * MATRIX_INSTANCE_BYTES });
    // the two destination regions are disjoint
    assert!(st.dest.offset + st.dest.range <= dy.dest.offset);
}
