use gpgpu_test::{
    AdapterSearch, BufferDescriptor, BufferError, BufferUsages, Framework, GpuBuffer, MapMode,
    MapRequest,
};

fn session() -> Framework {
    let search: AdapterSearch = Framework::default(None, None);
    let setup = search.resolve(true).expect("an adapter was found");
    setup.resolve(Ok(())).expect("a device was created").0
}

#[test]
fn with_capacity_has_the_capacity_asked_for() {
    let fw = session();
    let buffer: GpuBuffer<u32> = GpuBuffer::with_capacity(&fw, 32000);
    assert_eq!(buffer.capacity(), 32000);
    assert_eq!(buffer.size(), 128000);
}

#[test]
fn with_capacity_scales_size_by_the_element_type() {
    let fw = session();
    let bytes: GpuBuffer<u8> = GpuBuffer::with_capacity(&fw, 7);
    assert_eq!((bytes.capacity(), bytes.size()), (7, 7));
    let halves: GpuBuffer<u16> = GpuBuffer::with_capacity(&fw, 7);
    assert_eq!((halves.capacity(), halves.size()), (7, 14));
    let wide: GpuBuffer<u64> = GpuBuffer::with_capacity(&fw, 7);
    assert_eq!((wide.capacity(), wide.size()), (7, 56));
    let pairs: GpuBuffer<[f32; 4]> = GpuBuffer::with_capacity(&fw, 3);
    assert_eq!((pairs.capacity(), pairs.size()), (3, 48));
}

#[test]
fn with_capacity_zero_is_an_empty_buffer() {
    let fw = session();
    let buffer: GpuBuffer<u32> = GpuBuffer::with_capacity(&fw, 0);
    assert_eq!(buffer.capacity(), 0);
    assert_eq!(buffer.size(), 0);
    assert_eq!(buffer.map_request(10), MapRequest { elements: 0, bytes: 0, mode: MapMode::Read });
}

#[test]
fn zero_sized_elements_keep_their_count() {
    let fw = session();
    let buffer: GpuBuffer<()> = GpuBuffer::with_capacity(&fw, 9);
    assert_eq!(buffer.capacity(), 9);
    assert_eq!(buffer.size(), 0);
    assert_eq!(buffer.map_request(4), MapRequest { elements: 4, bytes: 0, mode: MapMode::Read });
}

#[test]
fn from_slice_is_sized_to_the_host_data() {
    let fw = session();
    let host: Vec<u32> = vec![5, 6, 7];
    let buffer = GpuBuffer::from_slice(&fw, host.as_slice());
    assert_eq!(buffer.capacity(), 3);
    assert_eq!(buffer.size(), 12);
    let empty: Vec<u64> = Vec::new();
    let buffer = GpuBuffer::from_slice(&fw, empty.as_slice());
    assert_eq!(buffer.capacity(), 0);
    assert_eq!(buffer.size(), 0);
}

#[test]
fn buffer_belongs_to_its_session() {
    let fw = session();
    let buffer: GpuBuffer<u32> = GpuBuffer::with_capacity(&fw, 1);
    assert!(std::ptr::eq(buffer.framework(), &fw));
}

#[test]
fn descriptor_carries_the_fixed_usage_profile() {
    let fw = session();
    let buffer: GpuBuffer<u32> = GpuBuffer::with_capacity(&fw, 16);
    let expected = BufferDescriptor {
        size: 64,
        usage: BufferUsages {
            storage: true,
            copy_src: true,
            copy_dst: true,
            map_read: true,
            map_write: true,
        },
        mapped_at_creation: false,
    };
    assert_eq!(buffer.descriptor(), expected);
    let host: Vec<u8> = vec![1, 2, 3];
    let uploaded = GpuBuffer::from_slice(&fw, host.as_slice());
    assert_eq!(uploaded.descriptor().usage, expected.usage);
    assert_eq!(uploaded.descriptor().size, 3);
    assert!(!uploaded.descriptor().mapped_at_creation);
}

#[test]
fn map_request_covers_what_fits_the_output() {
    let fw = session();
    let buffer: GpuBuffer<u32> = GpuBuffer::with_capacity(&fw, 10);
    assert_eq!(buffer.map_request(4), MapRequest { elements: 4, bytes: 16, mode: MapMode::Read });
    assert_eq!(buffer.map_request(10), MapRequest { elements: 10, bytes: 40, mode: MapMode::Read });
    assert_eq!(buffer.map_request(11), MapRequest { elements: 10, bytes: 40, mode: MapMode::Read });
    assert_eq!(buffer.map_request(0), MapRequest { elements: 0, bytes: 0, mode: MapMode::Read });
}

#[test]
fn round_trip_returns_the_host_sequence() {
    let fw = session();
    let host: Vec<u32> = vec![3, 1, 4, 1, 5, 9, 2, 6];
    let buffer = GpuBuffer::from_slice(&fw, host.as_slice());
    let request = buffer.map_request(buffer.capacity() as usize);
    assert_eq!(request, MapRequest { elements: 8, bytes: 32, mode: MapMode::Read });
    let device = host.clone();
    let downloaded = buffer.read_vec(Ok(device.as_slice())).expect("the map succeeded");
    assert_eq!(downloaded, host);
}

#[test]
fn round_trip_through_read_fills_an_output_of_the_same_length() {
    let fw = session();
    let host: Vec<u64> = vec![10, 20, 30];
    let buffer = GpuBuffer::from_slice(&fw, host.as_slice());
    let mut out: Vec<u64> = vec![0; 3];
    let count = buffer.read(Ok(host.as_slice()), out.as_mut_slice()).expect("the map succeeded");
    assert_eq!(count, 3);
    assert_eq!(out, host);
}

#[test]
fn read_into_smaller_output_truncates_from_the_front() {
    let fw = session();
    let device: Vec<u32> = vec![11, 22, 33, 44, 55, 66];
    let buffer = GpuBuffer::from_slice(&fw, device.as_slice());
    let mut out: Vec<u32> = vec![0; 4];
    let request = buffer.map_request(out.len());
    assert_eq!(request, MapRequest { elements: 4, bytes: 16, mode: MapMode::Read });
    let count = buffer.read(Ok(device.as_slice()), out.as_mut_slice()).expect("the map succeeded");
    assert_eq!(count, 4);
    assert_eq!(out, vec![11, 22, 33, 44]);
}

#[test]
fn read_of_exactly_the_mapped_range() {
    let fw = session();
    let buffer: GpuBuffer<u32> = GpuBuffer::with_capacity(&fw, 6);
    let mapped: Vec<u32> = vec![7, 8];
    let mut out: Vec<u32> = vec![0; 2];
    let count = buffer.read(Ok(mapped.as_slice()), out.as_mut_slice()).expect("the map succeeded");
    assert_eq!(count, 2);
    assert_eq!(out, vec![7, 8]);
}

#[test]
fn read_into_larger_output_leaves_the_tail() {
    let fw = session();
    let device: Vec<u32> = vec![1, 2, 3];
    let buffer = GpuBuffer::from_slice(&fw, device.as_slice());
    let mut out: Vec<u32> = vec![9; 5];
    let count = buffer.read(Ok(device.as_slice()), out.as_mut_slice()).expect("the map succeeded");
    assert_eq!(count, 3);
    assert_eq!(out, vec![1, 2, 3, 9, 9]);
}

#[test]
fn read_into_empty_output_reads_nothing() {
    let fw = session();
    let device: Vec<u32> = vec![1, 2, 3];
    let buffer = GpuBuffer::from_slice(&fw, device.as_slice());
    let mut out: Vec<u32> = Vec::new();
    let count = buffer.read(Ok(device.as_slice()), out.as_mut_slice()).expect("the map succeeded");
    assert_eq!(count, 0);
    assert!(out.is_empty());
}

#[test]
fn read_reports_a_failed_map_and_leaves_the_output() {
    let fw = session();
    let buffer: GpuBuffer<u32> = GpuBuffer::with_capacity(&fw, 4);
    let mut out: Vec<u32> = vec![1, 2, 3, 4];
    let result = buffer.read(Err(wgpu::BufferAsyncError), out.as_mut_slice());
    assert!(matches!(result, Err(BufferError::AsyncMapError(wgpu::BufferAsyncError))));
    assert_eq!(out, vec![1, 2, 3, 4]);
}

#[test]
fn read_vec_reports_a_failed_map() {
    let fw = session();
    let buffer: GpuBuffer<u32> = GpuBuffer::with_capacity(&fw, 4);
    let result = buffer.read_vec(Err(wgpu::BufferAsyncError));
    assert!(matches!(result, Err(BufferError::AsyncMapError(wgpu::BufferAsyncError))));
}

#[test]
fn read_vec_takes_the_whole_capacity() {
    let fw = session();
    let buffer: GpuBuffer<u16> = GpuBuffer::with_capacity(&fw, 3);
    let device: Vec<u16> = vec![100, 200, 300, 400];
    let downloaded = buffer.read_vec(Ok(device.as_slice())).expect("the map succeeded");
    assert_eq!(downloaded, vec![100, 200, 300]);
    let nothing: GpuBuffer<u16> = GpuBuffer::with_capacity(&fw, 0);
    let downloaded = nothing.read_vec(Ok(device.as_slice())).expect("the map succeeded");
    assert!(downloaded.is_empty());
}

#[test]
fn buffer_error_shows_the_backend_report() {
    let error = BufferError::AsyncMapError(wgpu::BufferAsyncError);
    assert_eq!(error.message(), "Error occurred when trying to async map a buffer");
    assert_eq!(error.message(), wgpu::BufferAsyncError.to_string());
    assert_ne!(error.message(), "");
}

#[test]
fn buffer_error_converts_from_the_backend_report() {
    let error: BufferError = wgpu::BufferAsyncError.into();
    assert!(matches!(error, BufferError::AsyncMapError(wgpu::BufferAsyncError)));
    let error = BufferError::from(wgpu::BufferAsyncError);
    assert!(matches!(error, BufferError::AsyncMapError(_)));
}
