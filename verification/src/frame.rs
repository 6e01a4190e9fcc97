use vstd::prelude::*;

verus! {

/// How many of `n` rows (or columns) are kept when every `stride`-th one is,
/// starting with the first.
pub open spec fn kept(n: int, stride: int) -> int {
    if n <= 0 {
        0
    } else {
        (n - 1) / stride + 1
    }
}

/// Byte `k` of the pixel in row `row` and column `col` of a frame stored row
/// by row, `width` pixels to a row and `channels` bytes to a pixel.
pub open spec fn pixel(frame: Seq<u8>, width: int, channels: int, row: int, col: int, k: int) -> u8 {
    frame[(row * width + col) * channels + k]
}

/// `small` is `frame` with only every `stride`-th row and column kept.
pub open spec fn is_downsampled(
    small: Seq<u8>,
    frame: Seq<u8>,
    height: int,
    width: int,
    channels: int,
    stride: int,
) -> bool {
    &&& small.len() == kept(height, stride) * kept(width, stride) * channels
    &&& forall|row: int, col: int, k: int|
        0 <= row < kept(height, stride) && 0 <= col < kept(width, stride) && 0 <= k < channels
            ==> #[trigger] pixel(small, kept(width, stride), channels, row, col, k) == pixel(
            frame,
            width,
            channels,
            row * stride,
            col * stride,
            k,
        )
}

/// The kept rows and columns lie inside the frame.
pub proof fn lemma_kept_in_range(n: int, stride: int, i: int)
    requires
        stride >= 1,
        0 <= i < kept(n, stride),
    ensures
        0 <= i * stride < n,
        kept(n, stride) <= n,
{
    assert(i <= (n - 1) / stride);
    assert(i * stride <= n - 1 && (n - 1) / stride + 1 <= n) by (nonlinear_arith)
        requires
            stride >= 1,
            n >= 1,
            0 <= i <= (n - 1) / stride,
    ;
}

/// The place of a byte in a frame grows with its row, column and channel, and
/// stays below the frame's size.
pub proof fn lemma_offset_in_range(height: int, width: int, channels: int, row: int, col: int, k: int)
    requires
        0 <= row < height,
        0 <= col < width,
        0 <= k < channels,
    ensures
        0 <= (row * width + col) * channels + k < height * width * channels,
{
    assert(0 <= row * width + col <= height * width - 1) by (nonlinear_arith)
        requires
            0 <= row <= height - 1,
            0 <= col <= width - 1,
    ;
    let p = row * width + col;
    let n = height * width;
    assert(0 <= p * channels + k < n * channels) by (nonlinear_arith)
        requires
            0 <= p <= n - 1,
            0 <= k < channels,
    ;
}

/// There is only one downsampled frame.
pub proof fn lemma_downsampled_unique(
    a: Seq<u8>,
    b: Seq<u8>,
    frame: Seq<u8>,
    height: int,
    width: int,
    channels: int,
    stride: int,
)
    requires
        stride >= 1,
        0 <= height,
        0 <= width,
        0 <= channels,
        is_downsampled(a, frame, height, width, channels, stride),
        is_downsampled(b, frame, height, width, channels, stride),
    ensures
        a == b,
{
    let oh = kept(height, stride);
    let ow = kept(width, stride);
    assert forall|i: int| 0 <= i < a.len() implies a[i] == b[i] by {
        assert(channels > 0 && ow > 0) by (nonlinear_arith)
            requires
                0 <= i < oh * ow * channels,
                0 <= oh,
                0 <= ow,
                0 <= channels,
        ;
        let k = i % channels;
        let p = i / channels;
        let col = p % ow;
        let row = p / ow;
        assert(i == p * channels + k && 0 <= k < channels) by (nonlinear_arith)
            requires
                k == i % channels,
                p == i / channels,
                channels > 0,
        ;
        assert(p == row * ow + col && 0 <= col < ow) by (nonlinear_arith)
            requires
                col == p % ow,
                row == p / ow,
                ow > 0,
        ;
        assert(0 <= row < oh) by (nonlinear_arith)
            requires
                0 <= i < oh * ow * channels,
                i == (row * ow + col) * channels + k,
                0 <= col < ow,
                0 <= k < channels,
        ;
        assert(a[i] == pixel(a, ow, channels, row, col, k));
        assert(b[i] == pixel(b, ow, channels, row, col, k));
    }
    assert(a =~= b);
}

/// Keeps every `stride`-th row and column of `frame`, a screen of `height`
/// rows and `width` columns with `channels` bytes to a pixel.
pub fn downsample(
    frame: &Vec<u8>,
    height: usize,
    width: usize,
    channels: usize,
    stride: usize,
) -> (small: Vec<u8>)
    requires
        stride >= 1,
        frame.len() == height * width * channels,
    ensures
        is_downsampled(small@, frame@, height as int, width as int, channels as int, stride as int),
{
    let out_h: usize = if height == 0 {
        0
    } else {
        (height - 1) / stride + 1
    };
    let out_w: usize = if width == 0 {
        0
    } else {
        (width - 1) / stride + 1
    };
    let ghost h = height as int;
    let ghost w = width as int;
    let ghost ch = channels as int;
    let ghost s = stride as int;
    let ghost oh = out_h as int;
    let ghost ow = out_w as int;
    assert(oh == kept(h, s) && ow == kept(w, s));
    let mut small: Vec<u8> = Vec::new();
    let mut row: usize = 0;
    assert(0 * ow * ch == 0) by (nonlinear_arith);
    while row < out_h
        invariant
            stride >= 1,
            frame.len() == h * w * ch,
            h == height,
            w == width,
            ch == channels,
            s == stride,
            oh == out_h,
            ow == out_w,
            oh == kept(h, s),
            ow == kept(w, s),
            0 <= row <= out_h,
            small.len() == row * ow * ch,
            forall|r: int, c: int, k: int|
                0 <= r < row && 0 <= c < ow && 0 <= k < ch ==> #[trigger] pixel(
                    small@,
                    ow,
                    ch,
                    r,
                    c,
                    k,
                ) == pixel(frame@, w, ch, r * s, c * s, k),
        decreases out_h - row,
    {
        proof {
            lemma_kept_in_range(h, s, row as int);
        }
        let src_row: usize = row * stride;
        let mut col: usize = 0;
        while col < out_w
            invariant
                stride >= 1,
                frame.len() == h * w * ch,
                h == height,
                w == width,
                ch == channels,
                s == stride,
                oh == out_h,
                ow == out_w,
                oh == kept(h, s),
                ow == kept(w, s),
                0 <= row < out_h,
                src_row == row * s,
                0 <= src_row < h,
                0 <= col <= out_w,
                small.len() == (row * ow + col) * ch,
                forall|r: int, c: int, k: int|
                    0 <= r < row && 0 <= c < ow && 0 <= k < ch ==> #[trigger] pixel(
                        small@,
                        ow,
                        ch,
                        r,
                        c,
                        k,
                    ) == pixel(frame@, w, ch, r * s, c * s, k),
                forall|c: int, k: int|
                    0 <= c < col && 0 <= k < ch ==> #[trigger] pixel(small@, ow, ch, row as int, c, k)
                        == pixel(frame@, w, ch, row * s, c * s, k),
            decreases out_w - col,
        {
            proof {
                lemma_kept_in_range(w, s, col as int);
            }
            let src_col: usize = col * stride;
            let mut k: usize = 0;
            while k < channels
                invariant
                    stride >= 1,
                    frame.len() == h * w * ch,
                    h == height,
                    w == width,
                    ch == channels,
                    s == stride,
                    oh == out_h,
                    ow == out_w,
                    oh == kept(h, s),
                    ow == kept(w, s),
                    0 <= row < out_h,
                    src_row == row * s,
                    0 <= src_row < h,
                    0 <= col < out_w,
                    src_col == col * s,
                    0 <= src_col < w,
                    0 <= k <= channels,
                    small.len() == (row * ow + col) * ch + k,
                    forall|r: int, c: int, j: int|
                        0 <= r < row && 0 <= c < ow && 0 <= j < ch ==> #[trigger] pixel(
                            small@,
                            ow,
                            ch,
                            r,
                            c,
                            j,
                        ) == pixel(frame@, w, ch, r * s, c * s, j),
                    forall|c: int, j: int|
                        0 <= c < col && 0 <= j < ch ==> #[trigger] pixel(
                            small@,
                            ow,
                            ch,
                            row as int,
                            c,
                            j,
                        ) == pixel(frame@, w, ch, row * s, c * s, j),
                    forall|j: int|
                        0 <= j < k ==> #[trigger] pixel(small@, ow, ch, row as int, col as int, j)
                            == pixel(frame@, w, ch, row * s, col * s, j),
                decreases channels - k,
            {
                proof {
                    lemma_offset_in_range(h, w, ch, src_row as int, src_col as int, k as int);
                    assert(0 <= src_row * w <= src_row * w + src_col <= h * w - 1) by (nonlinear_arith)
                        requires
                            0 <= src_row <= h - 1,
                            0 <= src_col <= w - 1,
                    ;
                    assert(h * w <= h * w * ch) by (nonlinear_arith)
                        requires
                            0 <= h * w,
                            1 <= ch,
                    ;
                    assert(0 <= (src_row * w + src_col) * ch) by (nonlinear_arith)
                        requires
                            0 <= src_row * w + src_col,
                            0 <= ch,
                    ;
                }
                let at: usize = (src_row * width + src_col) * channels + k;
                let byte: u8 = frame[at];
                let ghost before = small@;
                small.push(byte);
                proof {
                    let here = (row * ow + col) * ch + k;
                    assert(small@ == before.push(byte));
                    assert(small@[here] == byte);
                    assert forall|r: int, c: int, j: int|
                        0 <= r < row && 0 <= c < ow && 0 <= j < ch implies #[trigger] pixel(
                        small@,
                        ow,
                        ch,
                        r,
                        c,
                        j,
                    ) == pixel(frame@, w, ch, r * s, c * s, j) by {
                        lemma_offset_in_range(row as int, ow, ch, r, c, j);
                        assert(row * ow * ch <= here) by (nonlinear_arith)
                            requires
                                here == (row * ow + col) * ch + k,
                                0 <= col,
                                0 <= k,
                                0 <= ch,
                        ;
                        assert(pixel(before, ow, ch, r, c, j) == pixel(small@, ow, ch, r, c, j));
                    }
                    assert forall|c: int, j: int| 0 <= c < col && 0 <= j < ch implies #[trigger] pixel(
                        small@,
                        ow,
                        ch,
                        row as int,
                        c,
                        j,
                    ) == pixel(frame@, w, ch, row * s, c * s, j) by {
                        assert(0 <= (row * ow + c) * ch + j < (row * ow + col) * ch) by (nonlinear_arith)
                            requires
                                0 <= row,
                                0 <= ow,
                                0 <= c < col,
                                0 <= j < ch,
                        ;
                        assert(pixel(before, ow, ch, row as int, c, j) == pixel(
                            small@,
                            ow,
                            ch,
                            row as int,
                            c,
                            j,
                        ));
                    }
                    assert forall|j: int| 0 <= j < k + 1 implies #[trigger] pixel(
                        small@,
                        ow,
                        ch,
                        row as int,
                        col as int,
                        j,
                    ) == pixel(frame@, w, ch, row * s, col * s, j) by {
                        assert(0 <= (row * ow + col) * ch) by (nonlinear_arith)
                            requires
                                0 <= row,
                                0 <= ow,
                                0 <= col,
                                0 <= ch,
                        ;
                        if j < k {
                            assert(pixel(before, ow, ch, row as int, col as int, j) == pixel(
                                small@,
                                ow,
                                ch,
                                row as int,
                                col as int,
                                j,
                            ));
                        }
                    }
                }
                k = k + 1;
            }
            proof {
                assert((row * ow + col) * ch + ch == (row * ow + (col + 1)) * ch) by (nonlinear_arith);
            }
            col = col + 1;
        }
        proof {
            assert((row * ow + ow) * ch == (row + 1) * ow * ch) by (nonlinear_arith);
        }
        row = row + 1;
    }
    small
}

} // verus!
