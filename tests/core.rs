use wgpu_automata::{
    build_bind_group, check_admits, TextureDesc, clamp_count, current_pair, encode_words, workgroup_count, workgroups_2d,
    BindError, BindLayout, BindingKind, BindingSlot, BufferDesc, CameraParams, DoubleBuffer,
    FrameClock, InitialContents, ParticleSystem, RenderCallback, Resource, ResourceCommand,
    ResourcePool, SceneRenderer, SimParams, TexelFormat, Usages, BOIDS_WORKGROUP_SIZE,
    MAX_PARTICLES, PARTICLE_SEED,
};

fn params(count: u32) -> SimParams {
    SimParams {
        num_particles: count,
        delta_time_bits: 1.0f32.to_bits(),
        separation_distance_bits: 0.025f32.to_bits(),
        alignment_distance_bits: 0.025f32.to_bits(),
        cohesion_distance_bits: 0.1f32.to_bits(),
        separation_scale_bits: 0.05f32.to_bits(),
        alignment_scale_bits: 0.005f32.to_bits(),
        cohesion_scale_bits: 0.02f32.to_bits(),
    }
}

fn camera() -> CameraParams {
    CameraParams {
        origin_x_bits: 0.0f32.to_bits(),
        origin_y_bits: 0.0f32.to_bits(),
        scale_x_bits: 1.0f32.to_bits(),
        scale_y_bits: 1.0f32.to_bits(),
    }
}

#[test]
fn current_pair_alternates() {
    assert_eq!(current_pair(0), (0, 1));
    assert_eq!(current_pair(1), (1, 0));
    assert_eq!(current_pair(2), (0, 1));
    assert_eq!(current_pair(7), (1, 0));
    assert_eq!(current_pair(u64::MAX), (1, 0));
}

#[test]
fn read_index_after_n_advances_is_n_mod_2() {
    for n in 0u64..9 {
        let mut pair = DoubleBuffer::new();
        for k in 0..n {
            assert_eq!(pair.current_pair(), ((k % 2) as usize, ((k + 1) % 2) as usize));
            pair.advance();
        }
        assert_eq!(pair.generation(), n);
        assert_eq!(pair.read_index(), (n % 2) as usize);
    }
}

#[test]
fn workgroup_counts_round_up() {
    assert_eq!(workgroup_count(0, 256), 0);
    assert_eq!(workgroup_count(1, 256), 1);
    assert_eq!(workgroup_count(256, 256), 1);
    assert_eq!(workgroup_count(257, 256), 2);
    assert_eq!(workgroup_count(10_000, 256), 40);
    assert_eq!(workgroup_count(1500, 64), 24);
    assert_eq!(workgroup_count(u32::MAX, 2), 2_147_483_648);
    assert_eq!(workgroups_2d(64, 64, 8, 8), (8, 8, 1));
    assert_eq!(workgroups_2d(1, 1, 8, 8), (1, 1, 1));
    assert_eq!(workgroups_2d(65, 9, 8, 8), (9, 2, 1));
}

#[test]
fn clamp_limits_to_capacity() {
    assert_eq!(clamp_count(20_000, 12_000), 12_000);
    assert_eq!(clamp_count(12_000, 12_000), 12_000);
    assert_eq!(clamp_count(5, 12_000), 5);
    assert_eq!(clamp_count(0, 0), 0);
}

#[test]
fn words_encode_little_endian() {
    assert_eq!(encode_words(&vec![]), Vec::<u8>::new());
    assert_eq!(
        encode_words(&vec![0x0403_0201, 0xdead_beef]),
        vec![1, 2, 3, 4, 0xef, 0xbe, 0xad, 0xde]
    );
}

#[test]
fn sim_params_block_layout() {
    let p = SimParams {
        num_particles: 10_000,
        delta_time_bits: 2,
        separation_distance_bits: 3,
        alignment_distance_bits: 4,
        cohesion_distance_bits: 5,
        separation_scale_bits: 6,
        alignment_scale_bits: 7,
        cohesion_scale_bits: 8,
    };
    let bytes = p.to_bytes();
    assert_eq!(bytes.len(), 32);
    assert_eq!(&bytes[0..4], &10_000u32.to_le_bytes());
    for field in 1..8usize {
        assert_eq!(&bytes[4 * field..4 * field + 4], &((field + 1) as u32).to_le_bytes());
    }
    let c = camera().to_bytes();
    assert_eq!(c.len(), 16);
    assert_eq!(&c[8..12], &1.0f32.to_bits().to_le_bytes());
}

#[test]
fn frame_clock_carries_remainder() {
    let mut clock = FrameClock::new();
    assert_eq!(clock.accumulate(25, 10), 2);
    assert_eq!(clock.leftover(), 5);
    assert_eq!(clock.accumulate(4, 10), 0);
    assert_eq!(clock.leftover(), 9);
    assert_eq!(clock.accumulate(1, 10), 1);
    assert_eq!(clock.leftover(), 0);
}

#[test]
fn frame_clock_conserves_time() {
    let timestep = 8_333u64;
    let frames = [16_667u64, 16_666, 33_334, 0, 7, 100_000, 16_667, 4_999];
    let mut clock = FrameClock::new();
    let mut steps = 0u64;
    let mut elapsed = 0u64;
    for e in frames {
        steps += clock.accumulate(e, timestep);
        elapsed += e;
        assert_eq!(steps * timestep + clock.leftover(), elapsed);
        assert!(steps * timestep <= elapsed);
        assert!(elapsed < steps * timestep + timestep);
    }
}

#[test]
fn paused_clock_steps_only_on_request() {
    let mut clock = FrameClock::new();
    assert_eq!(clock.frame_steps(true, false, 15, 10), 1);
    assert_eq!(clock.leftover(), 5);
    assert_eq!(clock.frame_steps(false, false, 1_000, 10), 0);
    assert_eq!(clock.frame_steps(false, true, 1_000, 10), 1);
    assert_eq!(clock.leftover(), 5);
}

#[test]
fn bind_group_checks_usage() {
    let mut pool = ResourcePool::new();
    let uniform = pool.allocate_buffer(32, Usages { uniform: true, ..Usages::none() });
    let storage = pool.allocate_buffer(64, Usages { storage: true, ..Usages::none() });
    let texture = pool.allocate_texture(
        4,
        4,
        TexelFormat::R32Uint,
        Usages { storage_binding: true, ..Usages::none() },
    );
    assert_eq!((uniform.id, storage.id, texture.id), (0, 1, 2));
    assert_eq!(pool.next_id(), 3);
    let slots = vec![
        BindingSlot { group: 0, binding: 0, kind: BindingKind::UniformBuffer },
        BindingSlot { group: 0, binding: 5, kind: BindingKind::StorageBuffer { read_only: true } },
    ];
    let ok = build_bind_group(9, BindLayout::BoidsCompute, &slots, &vec![
        Resource::Buffer(uniform),
        Resource::Buffer(storage),
    ])
    .unwrap();
    assert_eq!(ok.id, 9);
    assert_eq!(ok.entries.len(), 2);
    assert_eq!((ok.entries[1].binding, ok.entries[1].resource), (5, 1));
    let swapped = build_bind_group(9, BindLayout::BoidsCompute, &slots, &vec![
        Resource::Buffer(storage),
        Resource::Buffer(uniform),
    ]);
    assert_eq!(swapped.unwrap_err(), BindError::UsageMismatch { binding: 0 });
    let texture_in_buffer_slot = build_bind_group(9, BindLayout::BoidsCompute, &slots, &vec![
        Resource::Buffer(uniform),
        Resource::Texture(texture),
    ]);
    assert_eq!(texture_in_buffer_slot.unwrap_err(), BindError::UsageMismatch { binding: 5 });
    let short = build_bind_group(9, BindLayout::BoidsCompute, &slots, &vec![Resource::Buffer(uniform)]);
    assert_eq!(short.unwrap_err(), BindError::SlotCountMismatch);
    let unusable = BufferDesc { id: 7, size: 4, usage: Usages::none() };
    let refused = build_bind_group(9, BindLayout::Camera, &vec![slots[0]], &vec![Resource::Buffer(unusable)]);
    assert_eq!(refused.unwrap_err(), BindError::UsageMismatch { binding: 0 });
}

#[test]
fn particle_setup_seeds_both_buffers() {
    let system = ParticleSystem::init(MAX_PARTICLES, BOIDS_WORKGROUP_SIZE);
    let setup = system.setup();
    assert_eq!(setup.len(), 5);
    match &setup[0] {
        ResourceCommand::CreateBuffer { buffer, contents } => {
            assert_eq!(buffer.size, 32);
            assert!(buffer.usage.uniform && buffer.usage.copy_dst);
            assert_eq!(*contents, InitialContents::Zeroed);
        }
        other => panic!("unexpected {other:?}"),
    }
    for cmd in &setup[1..3] {
        match cmd {
            ResourceCommand::CreateBuffer { buffer, contents } => {
                assert_eq!(buffer.size, 1_600_000);
                assert!(buffer.usage.vertex && buffer.usage.storage);
                assert_eq!(*contents, InitialContents::Seeded { seed: PARTICLE_SEED, count: MAX_PARTICLES });
            }
            other => panic!("unexpected {other:?}"),
        }
    }
    // bind group i reads buffer i and writes the other one
    let ids = [1u64, 2u64];
    for (i, cmd) in setup[3..5].iter().enumerate() {
        match cmd {
            ResourceCommand::CreateBindGroup { group } => {
                let bound: Vec<(u32, u64)> = group.entries.iter().map(|e| (e.binding, e.resource)).collect();
                assert_eq!(bound, vec![(0, 0), (1, ids[i]), (2, ids[1 - i])]);
            }
            other => panic!("unexpected {other:?}"),
        }
    }
}

#[test]
fn zero_steps_render_the_seeded_state() {
    let mut system = ParticleSystem::init(12_000, BOIDS_WORKGROUP_SIZE);
    let setup = system.setup();
    let plan = system.prepare(0, params(12_000));
    assert!(plan.dispatches.is_empty());
    assert!(plan.resources.is_empty());
    let draw = system.paint();
    let read = draw.vertex_buffer.unwrap();
    let seeded = setup.iter().any(|c| match c {
        ResourceCommand::CreateBuffer { buffer, contents } => {
            buffer.id == read && *contents == InitialContents::Seeded { seed: PARTICLE_SEED, count: 12_000 }
        }
        _ => false,
    });
    assert!(seeded);
    assert_eq!(system.generation(), 0);
    assert_eq!(draw.instance_count, 12_000);
    assert_eq!(draw.vertex_count, 3);
}

#[test]
fn single_steps_with_pause_alternate_buffers() {
    let mut system = ParticleSystem::init(100, BOIDS_WORKGROUP_SIZE);
    let first = RenderCallback { sim_params: params(100), num_sim_updates: 1 };
    let plan = first.prepare(&mut system);
    assert_eq!(system.generation(), 1);
    assert_eq!(plan.dispatches.len(), 1);
    assert_eq!(plan.dispatches[0].bind_group, 3);
    assert_eq!(first.paint(&system).vertex_buffer, Some(2));
    let paused = RenderCallback { sim_params: params(100), num_sim_updates: 0 };
    assert!(paused.prepare(&mut system).dispatches.is_empty());
    assert_eq!(system.generation(), 1);
    let second = first.prepare(&mut system);
    assert_eq!(system.generation(), 2);
    // the second dispatch uses the group that writes buffer index 0
    assert_eq!(second.dispatches[0].bind_group, 4);
    assert_eq!(first.paint(&system).vertex_buffer, Some(1));
}

#[test]
fn paused_frames_leave_state_unchanged() {
    let mut system = ParticleSystem::init(1_000, BOIDS_WORKGROUP_SIZE);
    system.prepare(3, params(1_000));
    let before = system.paint().vertex_buffer;
    for k in 0..5u32 {
        let plan = system.prepare(0, params(10 * k));
        assert!(plan.dispatches.is_empty());
        assert!(plan.resources.is_empty());
        assert_eq!(plan.writes.len(), 1);
        assert_eq!(plan.writes[0].buffer, 0);
        assert_eq!(system.generation(), 3);
        assert_eq!(system.paint().vertex_buffer, before);
    }
}

#[test]
fn live_count_is_clamped_before_dispatch() {
    let mut system = ParticleSystem::init(12_000, BOIDS_WORKGROUP_SIZE);
    let plan = system.prepare(2, params(20_000));
    assert_eq!(system.live_count(), 12_000);
    assert_eq!(&plan.writes[0].bytes[0..4], &12_000u32.to_le_bytes());
    assert_eq!(&plan.writes[0].bytes[4..8], &1.0f32.to_bits().to_le_bytes());
    for d in &plan.dispatches {
        assert_eq!((d.x, d.y, d.z), (47, 1, 1));
    }
    assert_eq!(plan.dispatches[0].bind_group, 3);
    assert_eq!(plan.dispatches[1].bind_group, 4);
    assert_eq!(system.paint().instance_count, 12_000);
    let plan = system.prepare(1, params(300));
    assert_eq!(system.live_count(), 300);
    assert_eq!(plan.dispatches[0].x, 2);
}

#[test]
fn resize_reallocates_textures() {
    let mut scene = SceneRenderer::init(true);
    assert!(scene.seed_mode());
    assert_eq!(scene.setup().len(), 6);
    assert_eq!(scene.texture_size(), (1, 1));
    let plan = scene.prepare(1, (1, 1), camera());
    assert!(plan.resources.is_empty());
    assert_eq!((plan.dispatches[0].x, plan.dispatches[0].y), (1, 1));
    assert_eq!(plan.dispatches[0].bind_group, 4);
    let plan = scene.prepare(2, (64, 64), camera());
    assert_eq!(scene.texture_size(), (64, 64));
    assert_eq!(plan.resources.len(), 8);
    let mut created = Vec::new();
    let mut released = Vec::new();
    for cmd in &plan.resources {
        match cmd {
            ResourceCommand::CreateTexture { texture } => {
                assert_eq!((texture.width, texture.height), (64, 64));
                created.push(texture.id);
            }
            ResourceCommand::CreateBindGroup { group } => {
                assert!(group.entries.iter().all(|e| e.resource >= 6));
                created.push(group.id);
            }
            ResourceCommand::Release { id } => {
                assert!(created.len() == 4);
                released.push(*id);
            }
            other => panic!("unexpected {other:?}"),
        }
    }
    assert_eq!(created, vec![6, 7, 8, 9]);
    assert_eq!(released, vec![4, 5, 2, 3]);
    for d in &plan.dispatches {
        assert_eq!((d.x, d.y, d.z), (8, 8, 1));
        assert!(!released.contains(&d.bind_group));
    }
    // generation 1 continues: dispatches at generations 1 and 2
    assert_eq!(plan.dispatches[0].bind_group, 9);
    assert_eq!(plan.dispatches[1].bind_group, 8);
    let draw = scene.render();
    assert!(draw.bind_groups.iter().all(|g| !released.contains(&g.bind_group)));
    assert_eq!(draw.bind_groups[0].bind_group, 9);
    assert_eq!(draw.bind_groups[1].bind_group, 1);
    assert_eq!((draw.vertex_count, draw.instance_count), (4, 1));
    assert_eq!(scene.generation(), 3);
}

#[test]
fn small_fixed_size_variant() {
    // 1500 particles with 64 invocations per workgroup, one step per frame
    let mut system = ParticleSystem::init(1500, 64);
    for frame in 0..4u64 {
        let plan = system.prepare(1, params(1500));
        assert_eq!(plan.dispatches.len(), 1);
        assert_eq!((plan.dispatches[0].x, plan.dispatches[0].y, plan.dispatches[0].z), (24, 1, 1));
        assert_eq!(plan.dispatches[0].bind_group, 3 + frame % 2);
        let draw = system.paint();
        assert_eq!(draw.instance_count, 1500);
        assert_eq!(draw.vertex_buffer, Some(1 + (frame + 1) % 2));
    }
}

#[test]
fn storage_texture_slots_need_integer_texels() {
    let slot = BindingKind::StorageTexture { write_only: true };
    let usable = TextureDesc {
        id: 1,
        width: 8,
        height: 8,
        format: TexelFormat::R32Uint,
        usage: Usages { storage_binding: true, ..Usages::none() },
    };
    assert!(check_admits(&Resource::Texture(usable), slot));
    let rgba = TextureDesc { format: TexelFormat::Rgba8Unorm, ..usable };
    assert!(!check_admits(&Resource::Texture(rgba), slot));
    let sampled_only = TextureDesc { usage: Usages { texture_binding: true, ..Usages::none() }, ..usable };
    assert!(!check_admits(&Resource::Texture(sampled_only), slot));
    let buffer = BufferDesc { id: 2, size: 16, usage: Usages { uniform: true, storage: true, ..Usages::none() } };
    assert!(!check_admits(&Resource::Buffer(buffer), slot));
    assert!(check_admits(&Resource::Buffer(buffer), BindingKind::UniformBuffer));
    assert!(check_admits(&Resource::Buffer(buffer), BindingKind::StorageBuffer { read_only: false }));
}

#[test]
fn first_failing_slot_is_reported() {
    let mut pool = ResourcePool::new();
    let plain = pool.allocate_buffer(4, Usages::none());
    let slots = vec![
        BindingSlot { group: 0, binding: 3, kind: BindingKind::UniformBuffer },
        BindingSlot { group: 0, binding: 4, kind: BindingKind::UniformBuffer },
    ];
    let r = pool.allocate_bind_group(BindLayout::Camera, &slots, &vec![Resource::Buffer(plain), Resource::Buffer(plain)]);
    assert_eq!(r.unwrap_err(), BindError::UsageMismatch { binding: 3 });
    // a refused group takes no id
    assert_eq!(pool.next_id(), 1);
}

#[test]
fn camera_buffer_starts_with_initial_block() {
    let scene = SceneRenderer::init(false);
    let setup = scene.setup();
    match &setup[0] {
        ResourceCommand::CreateBuffer { buffer, contents } => {
            assert_eq!(buffer.size, 16);
            assert_eq!(buffer.usage, Usages { uniform: true, copy_dst: true, ..Usages::none() });
            let expected = CameraParams {
                origin_x_bits: 0.0f32.to_bits(),
                origin_y_bits: 0.0f32.to_bits(),
                scale_x_bits: (9.0f32 / 16.0).to_bits(),
                scale_y_bits: 1.0f32.to_bits(),
            };
            assert_eq!(*contents, InitialContents::Camera { camera: expected });
        }
        other => panic!("unexpected {other:?}"),
    }
    for cmd in &setup[2..4] {
        match cmd {
            ResourceCommand::CreateTexture { texture } => {
                assert_eq!(texture.usage, Usages { storage_binding: true, ..Usages::none() });
                assert_eq!(texture.format, TexelFormat::R32Uint);
            }
            other => panic!("unexpected {other:?}"),
        }
    }
}

#[test]
fn particle_buffers_have_exact_usages() {
    let system = ParticleSystem::init(10, BOIDS_WORKGROUP_SIZE);
    let setup = system.setup();
    let usages: Vec<Usages> = setup[0..3]
        .iter()
        .map(|c| match c {
            ResourceCommand::CreateBuffer { buffer, .. } => buffer.usage,
            other => panic!("unexpected {other:?}"),
        })
        .collect();
    assert_eq!(usages[0], Usages { uniform: true, copy_dst: true, ..Usages::none() });
    let element = Usages { vertex: true, storage: true, copy_dst: true, ..Usages::none() };
    assert_eq!(usages[1], element);
    assert_eq!(usages[2], element);
}
