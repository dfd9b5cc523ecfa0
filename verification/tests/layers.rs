use bounce_up::layers::{Contact, LayerMask, PhysicsLayers};

#[test]
fn layer_masks_are_bits() {
    assert_eq!(LayerMask::none().bits, 0);
    assert_eq!(LayerMask::layer(0).bits, 1);
    assert_eq!(LayerMask::layer(1).bits, 2);
    assert_eq!(LayerMask::layer(0).with(1).bits, 3);
    assert_eq!(LayerMask::layer(31).bits, 1u32 << 31);
    assert_eq!(LayerMask::layer(4).with(4).bits, 16);
}

#[test]
fn masks_intersect_on_shared_layer() {
    let a = LayerMask::layer(1).with(2);
    let b = LayerMask::layer(2).with(3);
    let c = LayerMask::layer(4);
    assert!(a.intersects(&b));
    assert!(b.intersects(&a));
    assert!(!a.intersects(&c));
    assert!(!LayerMask::none().intersects(&LayerMask::none()));
    assert!(LayerMask::layer(1).intersects(&LayerMask::layer(1)));
}

#[test]
fn physics_layer_constants() {
    let ball = PhysicsLayers::ball();
    assert_eq!((ball.collision.bits, ball.bounciness.bits, ball.friction.bits), (6, 6, 6));
    let player = PhysicsLayers::player();
    assert_eq!((player.collision.bits, player.bounciness.bits, player.friction.bits), (26, 2, 2));
    let boundary = PhysicsLayers::boundary();
    assert_eq!((boundary.collision.bits, boundary.bounciness.bits, boundary.friction.bits), (12, 4, 4));
    let separate = PhysicsLayers::separate();
    assert_eq!((separate.collision.bits, separate.bounciness.bits, separate.friction.bits), (16, 0, 0));
}

#[test]
fn collision_matrix() {
    let ball = PhysicsLayers::ball();
    let player = PhysicsLayers::player();
    let boundary = PhysicsLayers::boundary();
    let separate = PhysicsLayers::separate();
    let both = Some(Contact { bounce: true, friction: true });
    let plain = Some(Contact { bounce: false, friction: false });
    // the ball bounces off walls and paddles, and flies through the middle line
    assert_eq!(ball.contact(&boundary), both);
    assert_eq!(ball.contact(&player), both);
    assert_eq!(ball.contact(&separate), None);
    assert_eq!(ball.contact(&ball), both);
    // paddles are stopped by walls and by the middle line, without bouncing
    assert_eq!(player.contact(&boundary), plain);
    assert_eq!(player.contact(&separate), plain);
    assert_eq!(player.contact(&player), both);
    // walls and the middle line never meet
    assert_eq!(boundary.contact(&separate), None);
    assert_eq!(boundary.contact(&boundary), both);
    assert_eq!(separate.contact(&separate), plain);
}

#[test]
fn contact_is_symmetric() {
    let all = [
        PhysicsLayers::ball(),
        PhysicsLayers::player(),
        PhysicsLayers::boundary(),
        PhysicsLayers::separate(),
    ];
    for a in all.iter() {
        for b in all.iter() {
            assert_eq!(a.contact(b), b.contact(a));
        }
    }
}
