"""Prints the hashes of the all-zero inputs of 0 to 255 bytes under the seeds
(0, 0, 0, 0), as they stand in src/zero_inputs.rs. A model of the portable
hasher in src/fallback_hash.rs, for maintaining that table."""

MASK = (1 << 64) - 1
MULTIPLE = 6364136223846793005
ROT = 23
PI2 = [0x452821E638D01377, 0xBE5466CF34E90C6C, 0xC0AC29B7C97C50DD, 0x3F84D5B5B5470917]


def folded_multiply(s, by):
    full = s * by
    return (full & MASK) ^ (full >> 64)


def rotate_left(x, r):
    return ((x << r) | (x >> (64 - r))) & MASK if r else x


def block_count(n):
    return 1 + (n - 1) // 16 if n > 16 else 1


def zero_input_hash(n):
    pad, buffer, k2, k3 = PI2[0], PI2[1], PI2[2], PI2[3]
    buffer = ((buffer + n) * MULTIPLE) & MASK
    combined = folded_multiply(k2, k3)
    for _ in range(block_count(n)):
        buffer = rotate_left(((buffer + pad) & MASK) ^ combined, ROT)
    return rotate_left(folded_multiply(buffer, pad), buffer & 63)


if __name__ == "__main__":
    hashes = [zero_input_hash(n) for n in range(256)]
    assert len(set(hashes)) == len(hashes)
    for n, h in enumerate(hashes):
        print(f"{n:2} {block_count(n)} {h:#018x}")
