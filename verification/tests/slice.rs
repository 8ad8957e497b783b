use embedded_dma::{
    RangeShape, ReadBuffer, ReadBufferExt, ReadBufferSlice, WriteBuffer, WriteBufferExt,
    WriteBufferSlice,
};

/// A buffer of bytes at a fixed place.
struct Bytes {
    addr: usize,
    len: usize,
}

impl ReadBuffer for Bytes {
    type Word = u8;

    fn read_window(&self) -> (usize, usize) {
        (self.addr, self.len)
    }

    fn read_buffer(&self) -> (usize, usize) {
        (self.addr, self.len)
    }
}

impl WriteBuffer for Bytes {
    type Word = u8;

    fn write_window(&self) -> (usize, usize) {
        (self.addr, self.len)
    }

    fn write_buffer(&mut self) -> (usize, usize) {
        (self.addr, self.len)
    }
}

/// A buffer of 32-bit words at a fixed place, which counts its queries.
struct Words {
    addr: usize,
    len: usize,
    queries: core::cell::Cell<usize>,
}

impl Words {
    fn at(addr: usize, len: usize) -> Self {
        Words { addr, len, queries: core::cell::Cell::new(0) }
    }
}

impl ReadBuffer for Words {
    type Word = u32;

    fn read_window(&self) -> (usize, usize) {
        (self.addr, self.len)
    }

    fn read_buffer(&self) -> (usize, usize) {
        self.queries.set(self.queries.get() + 1);
        (self.addr, self.len)
    }
}

impl WriteBuffer for Words {
    type Word = u32;

    fn write_window(&self) -> (usize, usize) {
        (self.addr, self.len)
    }

    fn write_buffer(&mut self) -> (usize, usize) {
        self.queries.set(self.queries.get() + 1);
        (self.addr, self.len)
    }
}

const BASE: usize = 0x2000_0000;

fn bytes() -> Bytes {
    Bytes { addr: BASE, len: 128 }
}

#[test]
fn read_slice_out_of_bounds_is_refused() {
    assert!(bytes().into_read_buffer_slice(130..140).is_none());
    assert!(bytes().into_read_buffer_slice(0..129).is_none());
    assert!(bytes().into_read_buffer_slice(..129).is_none());
    assert!(bytes().into_read_buffer_slice(129..).is_none());
    assert!(bytes().into_read_buffer_slice(RangeShape::Closed { start: 0, end: 128 }).is_none());
}

#[test]
fn read_slice_with_start_after_end_is_refused() {
    assert!(bytes().into_read_buffer_slice(10..9).is_none());
    assert!(bytes().into_read_buffer_slice(128..0).is_none());
    assert!(bytes().into_read_buffer_slice(RangeShape::Closed { start: 10, end: 8 }).is_none());
}

#[test]
fn read_slice_of_a_valid_range() {
    let slice: ReadBufferSlice<Bytes> = bytes().into_read_buffer_slice(0..123).unwrap();
    assert_eq!(slice.read_buffer(), (BASE, 123));
}

#[test]
fn read_slice_gives_the_whole_owner_back() {
    let slice = bytes().into_read_buffer_slice(0..123).unwrap();
    assert_eq!(slice.read_buffer().1, 123);
    let owner = slice.inner();
    assert_eq!(owner.read_buffer(), (BASE, 128));
}

#[test]
fn read_slice_of_every_shape() {
    let window = |shape: RangeShape| bytes().into_read_buffer_slice(shape).unwrap().read_buffer();
    assert_eq!(window(RangeShape::Closed { start: 4, end: 9 }), (BASE + 4, 6));
    assert_eq!(window(RangeShape::HalfOpen { start: 4, end: 9 }), (BASE + 4, 5));
    assert_eq!(window(RangeShape::OpenStart { end: 9 }), (BASE, 9));
    assert_eq!(window(RangeShape::OpenEnd { start: 4 }), (BASE + 4, 124));
    assert_eq!(window(RangeShape::Full), (BASE, 128));
    assert_eq!(bytes().into_read_buffer_slice(..).unwrap().read_buffer(), (BASE, 128));
    assert_eq!(bytes().into_read_buffer_slice(128..).unwrap().read_buffer(), (BASE + 128, 0));
    assert_eq!(bytes().into_read_buffer_slice(..0).unwrap().read_buffer(), (BASE, 0));
}

#[test]
fn read_slice_steps_in_whole_words() {
    let slice = Words::at(BASE, 64).into_read_buffer_slice(3..10).unwrap();
    assert_eq!(slice.read_buffer(), (BASE + 12, 7));
    let slice = Words::at(BASE, 64).into_read_buffer_slice(64..).unwrap();
    assert_eq!(slice.read_buffer(), (BASE + 256, 0));
}

#[test]
fn read_slice_asks_its_owner_once() {
    let slice = Words::at(BASE, 64).into_read_buffer_slice(1..2).unwrap();
    assert_eq!(slice.read_buffer(), (BASE + 4, 1));
    assert_eq!(slice.read_buffer(), (BASE + 4, 1));
    assert_eq!(slice.read_buffer(), (BASE + 4, 1));
    let owner = slice.inner();
    assert_eq!(owner.queries.get(), 1);
}

#[test]
fn read_slice_of_a_read_slice() {
    let outer = bytes().into_read_buffer_slice(10..100).unwrap();
    let inner = outer.into_read_buffer_slice(5..20).unwrap();
    assert_eq!(inner.read_buffer(), (BASE + 15, 15));
    let outer = inner.inner();
    assert_eq!(outer.read_buffer(), (BASE + 10, 90));
    assert!(outer.into_read_buffer_slice(0..91).is_none());
}

#[test]
fn read_slice_at_the_end_of_the_address_space() {
    let top = Bytes { addr: usize::MAX - 16, len: 16 };
    let slice = top.into_read_buffer_slice(16..).unwrap();
    assert_eq!(slice.read_buffer(), (usize::MAX, 0));
    let top = Words::at(usize::MAX - 16, 4);
    let slice = top.into_read_buffer_slice(1..4).unwrap();
    assert_eq!(slice.read_buffer(), (usize::MAX - 12, 3));
}

#[test]
fn write_slice_out_of_bounds_is_refused() {
    assert!(bytes().into_write_buffer_slice(130..140).is_none());
    assert!(bytes().into_write_buffer_slice(..129).is_none());
    assert!(bytes().into_write_buffer_slice(200..).is_none());
    assert!(bytes().into_write_buffer_slice(7..6).is_none());
}

#[test]
fn write_slice_of_a_valid_range() {
    let mut slice: WriteBufferSlice<Bytes> = bytes().into_write_buffer_slice(0..123).unwrap();
    assert_eq!(slice.write_buffer(), (BASE, 123));
    assert_eq!(slice.write_buffer(), (BASE, 123));
}

#[test]
fn write_slice_gives_the_whole_owner_back() {
    let mut slice = bytes().into_write_buffer_slice(..123).unwrap();
    assert_eq!(slice.write_buffer().1, 123);
    let mut owner = slice.inner();
    assert_eq!(owner.write_buffer(), (BASE, 128));
}

#[test]
fn write_slice_steps_in_whole_words() {
    let mut slice = Words::at(0x1000, 16).into_write_buffer_slice(4..).unwrap();
    assert_eq!(slice.write_buffer(), (0x1010, 12));
    let mut slice =
        Words::at(0x1000, 16).into_write_buffer_slice(RangeShape::Closed { start: 15, end: 15 });
    assert_eq!(slice.as_mut().unwrap().write_buffer(), (0x103c, 1));
}

#[test]
fn write_slice_asks_its_owner_once() {
    let mut slice = Words::at(BASE, 64).into_write_buffer_slice(..).unwrap();
    assert_eq!(slice.write_buffer(), (BASE, 64));
    assert_eq!(slice.write_buffer(), (BASE, 64));
    let owner = slice.inner();
    assert_eq!(owner.queries.get(), 1);
}

#[test]
fn dma_transfer_returns_the_whole_buffer() {
    struct DmaTransfer<Buf> {
        buf: Buf,
    }

    impl<Buf: WriteBuffer> DmaTransfer<Buf> {
        fn start(buf: Buf) -> Self {
            Self { buf }
        }

        fn is_done(&self) -> bool {
            true
        }

        fn free(self) -> Buf {
            while !self.is_done() {}
            self.buf
        }
    }

    fn dma_transfer(buffer: Bytes, length: usize) -> Bytes {
        let buffer_slice = buffer.into_write_buffer_slice(..length).unwrap();
        let transfer = DmaTransfer::start(buffer_slice);
        while !transfer.is_done() {}
        let buffer_slice = transfer.free();
        buffer_slice.inner()
    }

    const SIZE: usize = 1024;
    let buffer = Bytes { addr: BASE, len: SIZE };
    assert_eq!(buffer.read_buffer().1, SIZE);
    let returned_buffer = dma_transfer(buffer, 123);
    assert_eq!(returned_buffer.read_buffer().1, SIZE);
}
