use instanced_draw::buffers::BufferCommand;
use instanced_draw::buffers::GpuStream;
use instanced_draw::buffers::InstanceBufferHandle;
use instanced_draw::buffers::prepare_instance_buffers;
use instanced_draw::codec::InstanceRecord;

fn rec(seed: u32) -> InstanceRecord {
    InstanceRecord {
        pos_x: seed,
        pos_y: seed.wrapping_add(1),
        pos_z: seed.wrapping_add(2),
        scale: 0x3f80_0000,
        color_r: 0x3f80_0000,
        color_g: 0,
        color_b: 0,
        color_a: 0x3f80_0000,
    }
}

fn group(n: u32) -> Vec<InstanceRecord> {
    (0..n).map(rec).collect()
}

#[test]
fn first_sight_allocates_exactly_sized_buffer() {
    let groups = vec![Some(group(4))];
    let mut handles: Vec<Option<InstanceBufferHandle>> = vec![None];
    let mut stream = GpuStream::new();
    prepare_instance_buffers(&groups, &mut handles, &mut stream);
    let h = handles[0].expect("a handle must be attached");
    assert_eq!(h.length, 4);
    assert_eq!(stream.commands.len(), 1);
    match &stream.commands[0] {
        BufferCommand::Create { buffer, bytes } => {
            assert_eq!(*buffer, h.buffer);
            assert_eq!(bytes.len(), 4 * 32);
        }
        BufferCommand::Write { .. } => panic!("first sight must create, not write"),
    }
}

#[test]
fn unchanged_count_overwrites_in_place() {
    let mut handles: Vec<Option<InstanceBufferHandle>> = vec![None];
    let mut stream = GpuStream::new();
    prepare_instance_buffers(&vec![Some(group(4))], &mut handles, &mut stream);
    let first = handles[0].unwrap();

    // Next frame: same count, different contents.
    let mut changed = group(4);
    changed[0] = rec(99);
    prepare_instance_buffers(&vec![Some(changed)], &mut handles, &mut stream);

    // Buffer identity is stable: same handle, and the second command is a
    // write to the same buffer, not a reallocation.
    assert_eq!(handles[0].unwrap(), first);
    assert_eq!(stream.commands.len(), 2);
    match &stream.commands[1] {
        BufferCommand::Write { buffer, bytes } => {
            assert_eq!(*buffer, first.buffer);
            assert_eq!(bytes.len(), 4 * 32);
        }
        BufferCommand::Create { .. } => panic!("unchanged count must not reallocate"),
    }
}

#[test]
fn changed_count_reallocates_to_new_exact_size() {
    let mut handles: Vec<Option<InstanceBufferHandle>> = vec![None];
    let mut stream = GpuStream::new();
    prepare_instance_buffers(&vec![Some(group(4))], &mut handles, &mut stream);
    let first = handles[0].unwrap();

    // The group grew: the buffer must be re-created, sized to the new
    // count times 32 bytes exactly.
    prepare_instance_buffers(&vec![Some(group(6))], &mut handles, &mut stream);
    let second = handles[0].unwrap();
    assert_ne!(second.buffer, first.buffer);
    assert_eq!(second.length, 6);
    match &stream.commands[1] {
        BufferCommand::Create { buffer, bytes } => {
            assert_eq!(*buffer, second.buffer);
            assert_eq!(bytes.len(), 6 * 32);
        }
        BufferCommand::Write { .. } => panic!("a changed count must reallocate"),
    }
}

#[test]
fn absent_group_is_left_untouched() {
    let existing = InstanceBufferHandle { buffer: 7, length: 3 };
    let mut handles = vec![Some(existing), None];
    let mut stream = GpuStream::new();
    prepare_instance_buffers(&vec![None, None], &mut handles, &mut stream);
    assert_eq!(handles[0], Some(existing));
    assert_eq!(handles[1], None);
    assert_eq!(stream.commands.len(), 0);
}

#[test]
fn entities_are_synced_in_order_with_fresh_ids() {
    let groups = vec![Some(group(1)), None, Some(group(2))];
    let mut handles: Vec<Option<InstanceBufferHandle>> = vec![None, None, None];
    let mut stream = GpuStream::new();
    prepare_instance_buffers(&groups, &mut handles, &mut stream);
    let h0 = handles[0].unwrap();
    let h2 = handles[2].unwrap();
    assert_eq!(h0.buffer, 0);
    assert_eq!(h2.buffer, 1);
    assert_eq!(handles[1], None);
    assert_eq!(stream.next_buffer, 2);
    assert_eq!(stream.commands.len(), 2);
}
