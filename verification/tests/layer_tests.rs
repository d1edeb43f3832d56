use voxelmesh::layer::BakedChunkLayer;

fn layer_from(top: Vec<u32>, north: Vec<u32>, nonstandard: Vec<u32>) -> BakedChunkLayer<u32> {
    let mut l: BakedChunkLayer<u32> = BakedChunkLayer::new();
    l.top = top;
    l.north = north;
    l.nonstandard = nonstandard;
    l
}

#[test]
fn new_layer_is_empty() {
    let l: BakedChunkLayer<u32> = BakedChunkLayer::new();
    let c = l.counts();
    assert_eq!(c.top + c.bottom + c.north + c.east + c.south + c.west + c.nonstandard, 0);
}

#[test]
fn default_matches_new() {
    let d: BakedChunkLayer<u32> = Default::default();
    let n: BakedChunkLayer<u32> = BakedChunkLayer::new();
    assert_eq!(d, n);
}

#[test]
fn merge_appends_in_order() {
    let mut a = layer_from(vec![1, 2], vec![10], vec![]);
    let b = layer_from(vec![3], vec![], vec![20]);
    a.extend(&b);
    assert_eq!(a.top, vec![1, 2, 3]);
    assert_eq!(a.north, vec![10]);
    assert_eq!(a.nonstandard, vec![20]);
}

#[test]
fn merge_counts_are_sums() {
    let mut a = layer_from(vec![1, 2], vec![10], vec![30, 31, 32]);
    let b = layer_from(vec![3], vec![11, 12], vec![33]);
    let (ca, cb) = (a.counts(), b.counts());
    a.extend(&b);
    let c = a.counts();
    assert_eq!(c.top, ca.top + cb.top);
    assert_eq!(c.north, ca.north + cb.north);
    assert_eq!(c.nonstandard, ca.nonstandard + cb.nonstandard);
}

#[test]
fn merge_with_empty_is_identity() {
    let reference = layer_from(vec![1, 2], vec![10], vec![20]);
    let mut a = layer_from(vec![1, 2], vec![10], vec![20]);
    a.extend(&BakedChunkLayer::new());
    assert_eq!(a, reference);
    let mut e: BakedChunkLayer<u32> = BakedChunkLayer::new();
    e.extend(&reference);
    assert_eq!(e, reference);
}

#[test]
fn merge_is_associative() {
    let a = layer_from(vec![1], vec![10], vec![]);
    let b = layer_from(vec![2], vec![], vec![20]);
    let c = layer_from(vec![3], vec![11], vec![21]);

    let mut left = layer_from(vec![1], vec![10], vec![]);
    left.extend(&b);
    left.extend(&c);

    let mut bc = layer_from(vec![2], vec![], vec![20]);
    bc.extend(&c);
    let mut right = a;
    right.extend(&bc);

    assert_eq!(left, right);
}
