use mppdarkgst::call::Geometry;
use mppdarkgst::mpp_ffi::mpp_align;
use mppdarkgst::planes::{
    pack, pack_size, pack_size_fits, padding_fits, rows_fit, spread, take, take_size, take_size_fits,
};

fn geometry(width: u32, height: u32, hor_stride: u32, ver_stride: u32) -> Geometry {
    Geometry { width, height, hor_stride, ver_stride }
}

fn numbered(n: usize) -> Vec<u8> {
    (0..n).map(|i| (i % 251) as u8 + 1).collect()
}

#[test]
fn align_rounds_up_to_sixteen() {
    assert_eq!(mpp_align(0), 0);
    assert_eq!(mpp_align(1), 16);
    assert_eq!(mpp_align(16), 16);
    assert_eq!(mpp_align(17), 32);
    assert_eq!(mpp_align(1080), 1088);
    assert_eq!(mpp_align(1920), 1920);
    assert_eq!(mpp_align(u32::MAX - 16), u32::MAX - 15);
}

#[test]
fn align_twice_is_align_once() {
    for v in 0..200u32 {
        assert_eq!(mpp_align(mpp_align(v)), mpp_align(v));
        assert!(mpp_align(v) <= mpp_align(v + 1));
    }
}

#[test]
fn spread_pads_rows_and_planes() {
    // Two rows of two pixels in memory of four by four.
    let g = geometry(2, 2, 4, 4);
    let input = [1, 2, 3, 4, 5, 6];
    let mut dst = [9u8; 24];
    spread(&input, &mut dst, g);
    assert_eq!(
        dst,
        [
            1, 2, 9, 9, 3, 4, 9, 9, 0, 0, 0, 0, 0, 0, 0, 0, // luma
            5, 6, 9, 9, 128, 128, 128, 128, // chroma
        ]
    );
}

#[test]
fn spread_without_row_padding_copies_planes() {
    let g = geometry(4, 2, 4, 4);
    let input: Vec<u8> = (1..=12).collect();
    let mut dst = [9u8; 25];
    spread(&input, &mut dst, g);
    assert_eq!(&dst[..8], &input[..8]);
    assert_eq!(&dst[8..16], &[0; 8]);
    assert_eq!(&dst[16..20], &input[8..12]);
    assert_eq!(&dst[20..24], &[128; 4]);
    assert_eq!(dst[24], 9);
}

#[test]
fn spread_leaves_out_rows_that_are_missing() {
    // The input ends within the second row; with padding it is taken row by row.
    let g = geometry(2, 2, 4, 2);
    let mut dst = [9u8; 12];
    spread(&[1, 2, 3], &mut dst, g);
    assert_eq!(dst, [1, 2, 9, 9, 9, 9, 9, 9, 9, 9, 9, 9]);

    // Without row padding a plane is taken as a whole or not at all.
    let g = geometry(4, 2, 4, 2);
    let mut dst = [9u8; 12];
    spread(&[1, 2, 3, 4, 5, 6, 7], &mut dst, g);
    assert_eq!(dst, [9; 12]);
    spread(&[1, 2, 3, 4, 5, 6, 7, 8], &mut dst, g);
    assert_eq!(dst, [1, 2, 3, 4, 5, 6, 7, 8, 9, 9, 9, 9]);
}

#[test]
fn pack_strips_padding() {
    let g = geometry(2, 2, 4, 4);
    let src = [
        1, 2, 9, 9, 3, 4, 9, 9, 0, 0, 0, 0, 0, 0, 0, 0, //
        5, 6, 9, 9, 128, 128, 128, 128,
    ];
    let mut dst = [7u8; 7];
    pack(&src, &mut dst, g);
    assert_eq!(dst, [1, 2, 3, 4, 5, 6, 7]);
}

#[test]
fn pack_undoes_spread() {
    for (w, h) in [(6, 4), (16, 4), (5, 3), (1, 1), (16, 16), (7, 5)] {
        let g = geometry(w, h, mpp_align(w), mpp_align(h));
        let rows = (w * h + h / 2 * w) as usize;
        let input = numbered(rows);
        let mut mem = vec![3u8; (g.hor_stride * g.ver_stride * 3 / 2) as usize];
        assert!(padding_fits(g, mem.len()));
        spread(&input, &mut mem, g);
        assert!(rows_fit(g, mem.len()));
        let mut out = vec![0u8; pack_size(g)];
        assert!(out.len() >= rows);
        pack(&mem, &mut out, g);
        assert_eq!(&out[..rows], &input[..]);
    }
}

#[test]
fn take_undoes_spread() {
    for (w, h) in [(6u32, 4u32), (5, 3), (7, 16), (16, 4), (32, 2), (16, 16), (16, 1)] {
        let g = geometry(w, h, mpp_align(w), mpp_align(h));
        let rows = (w * h + h / 2 * w) as usize;
        let input = numbered(rows);
        let mut mem = vec![3u8; (g.hor_stride * g.ver_stride * 3 / 2) as usize];
        spread(&input, &mut mem, g);
        let mut out = vec![0u8; take_size(g)];
        take(&mem, &mut out, g);
        assert_eq!(&out[..rows], &input[..]);
    }
}

#[test]
fn take_skips_the_padding_behind_luma() {
    let mut dst = [0u8; 6];
    take(&[1, 2, 3, 4, 0, 0, 0, 0, 5, 6], &mut dst, geometry(2, 2, 2, 4));
    assert_eq!(dst, [1, 2, 3, 4, 5, 6]);

    let g = geometry(4, 2, 4, 4);
    let src: Vec<u8> = (1..=24).collect();
    let mut dst = vec![0u8; take_size(g)];
    take(&src, &mut dst, g);
    assert_eq!(dst, [1, 2, 3, 4, 5, 6, 7, 8, 17, 18, 19, 20]);
}

#[test]
fn take_fills_the_size_of_an_odd_height() {
    let g = geometry(2, 1, 2, 1);
    let mut dst = vec![0u8; take_size(g)];
    take(&[1, 2, 3, 4], &mut dst, g);
    assert_eq!(dst, [1, 2, 3]);

    let g = geometry(4, 3, 4, 4);
    let src: Vec<u8> = (1..=24).collect();
    let mut dst = vec![0u8; take_size(g)];
    take(&src, &mut dst, g);
    assert_eq!(dst, [1, 2, 3, 4, 5, 6, 7, 8, 9, 10, 11, 12, 17, 18, 19, 20, 21, 22]);

    // Rows with padding are taken one by one; what is behind them stays.
    let g = geometry(2, 1, 4, 1);
    let mut dst = vec![9u8; take_size(g)];
    take(&[1, 2, 3, 4, 5, 6], &mut dst, g);
    assert_eq!(dst, [1, 2, 9]);
}

#[test]
fn take_of_short_memory_fills_what_it_can() {
    let g = geometry(4, 2, 4, 4);
    let src: Vec<u8> = (1..=24).collect();
    let mut dst = vec![0u8; take_size(g)];
    take(&src[..5], &mut dst, g);
    assert_eq!(dst, [1, 2, 3, 4, 5, 0, 0, 0, 0, 0, 0, 0]);
    take(&src[..18], &mut dst, g);
    assert_eq!(dst, [1, 2, 3, 4, 5, 6, 7, 8, 17, 18, 0, 0]);
}

#[test]
fn picture_sizes() {
    let hd = geometry(1920, 1080, 1920, 1088);
    assert_eq!(take_size(hd), 3_110_400);
    assert_eq!(pack_size(hd), 3_110_400);
    assert_eq!(take_size(geometry(3, 3, 16, 16)), 13);
    assert!(take_size_fits(hd));
    assert!(pack_size_fits(hd));
    assert!(!take_size_fits(geometry(65_536, 65_536, 65_536, 65_536)));
    assert!(take_size_fits(geometry(0, u32::MAX, 0, 0)));
}

#[test]
fn memory_tests_are_exact() {
    let g = geometry(2, 2, 4, 4);
    assert!(padding_fits(g, 24));
    assert!(!padding_fits(g, 23));
    assert!(!padding_fits(geometry(5, 2, 4, 4), 24));
    assert!(!padding_fits(geometry(2, 5, 4, 4), 24));
    assert!(rows_fit(g, 18));
    assert!(!rows_fit(g, 17));
    assert!(rows_fit(geometry(2, 1, 4, 1), 4));
    assert!(!rows_fit(geometry(2, 1, 4, 1), 3));
    assert!(!rows_fit(geometry(8, 1, 4, 1), 7));
}
