use auth_pipeline::codec::Encoding;
use auth_pipeline::codec::Standard;
use auth_pipeline::codec::B64;
use auth_pipeline::context::Context;
use auth_pipeline::context::Store;
use auth_pipeline::statics::AddStatic;
use auth_pipeline::statics::Rejection;
use auth_pipeline::statics::Static;
use auth_pipeline::statics::StaticExtensionsLayer;
use auth_pipeline::statics::StaticLayer;
use auth_pipeline::statics::INTERNAL_SERVER_ERROR;
use http::Extensions;

#[derive(Debug, Clone, PartialEq)]
struct Data(&'static str);

#[derive(Debug, Clone, PartialEq)]
struct Content {
    content: String,
}

fn leak<T>(value: T) -> &'static T {
    Box::leak(Box::new(value))
}

#[test]
fn static_service() {
    let data: &'static Data = leak(Data("West"));
    let encoder: &'static B64<Standard> = leak(B64::<Standard>::new());

    let with_data = StaticLayer::new(data).layer(());
    let with_encoder = StaticLayer::new(encoder).layer(());

    let mut data_ctx = Context::new();
    let mut encoder_ctx = Context::new();
    with_data.inject(&mut data_ctx);
    with_encoder.inject(&mut encoder_ctx);

    let Static(found) = Static::extract(&data_ctx).unwrap();
    let Static(engine) = Static::extract(&encoder_ctx).unwrap();
    let res = engine.encode(found.0.as_bytes()).unwrap();

    let res = encoder.decode(res.as_bytes()).unwrap();

    assert_eq!("West", res);
}

#[test]
fn lib_static_service() {
    let data: &'static Content = leak(Content { content: String::from("West") });
    let extensions = vec![data];

    let svc = StaticExtensionsLayer::new(extensions).layer(());
    let mut ctx = Context::new();
    svc.inject(&mut ctx);

    let state = ctx.get().unwrap();
    let res: String = state.content.clone();

    println!("{}", res);
    assert_eq!(String::from("West"), res);
}

#[test]
fn the_extracted_value_is_the_one_installed() {
    let data: &'static Data = leak(Data("West"));
    let service = AddStatic::new((), data);
    let mut ctx = Context::new();
    service.inject(&mut ctx);
    let handle = Static::extract(&ctx).unwrap();
    assert!(std::ptr::eq(handle.0, data));
    assert!(std::ptr::eq(&*handle, data));
    assert_eq!(handle.0 .0, "West");
    assert!(std::ptr::eq(handle.clone().0, data));
    assert!(std::ptr::eq(Static::expect(&ctx).0, data));
}

#[test]
fn a_value_that_was_never_installed_is_a_wiring_error() {
    let ctx: Context<Static<Data>> = Context::new();
    let rejection = Static::extract(&ctx).err().unwrap();
    assert_eq!(rejection.status, 500);
    assert_eq!(rejection.status, INTERNAL_SERVER_ERROR);
    assert_eq!(rejection.message, "Unknown error occurred!");
    let again = Rejection::new();
    assert_eq!(again.status, 500);
    assert_eq!(again.message, "Unknown error occurred!");
}

#[test]
fn the_diagnostic_names_the_missing_type() {
    assert_eq!(
        Rejection::diagnostic("Static<Data>"),
        "Failed to  extract Static<Data>, is it added via StaticLayer"
    );
    assert_eq!(Rejection::diagnostic(""), "Failed to  extract , is it added via StaticLayer");
}

#[test]
fn every_request_gets_the_same_value() {
    let data: &'static Data = leak(Data("shared"));
    let layer = StaticLayer::new(data);
    let service = layer.clone().layer("handler");
    assert_eq!(service.inner, "handler");
    let mut a = Context::new();
    let mut b = Context::new();
    service.inject(&mut a);
    service.inject(&mut b);
    let in_a = Static::extract(&a).unwrap();
    let in_b = Static::extract(&b).unwrap();
    assert!(std::ptr::eq(in_a.0, in_b.0));
    assert_eq!(in_a.0, &Data("shared"));
}

#[test]
fn a_later_static_layer_replaces_an_earlier_one() {
    let first: &'static Data = leak(Data("first"));
    let second: &'static Data = leak(Data("second"));
    let mut ctx = Context::new();
    AddStatic::new((), first).inject(&mut ctx);
    AddStatic::new((), second).inject(&mut ctx);
    assert!(std::ptr::eq(Static::extract(&ctx).unwrap().0, second));
}

#[test]
fn of_several_static_values_the_last_stays() {
    let a: &'static Content = leak(Content { content: String::from("a") });
    let b: &'static Content = leak(Content { content: String::from("b") });
    let layer = StaticExtensionsLayer::new(vec![a, b]);
    let service = layer.layer(7_u8);
    assert_eq!(service.inner, 7);
    assert_eq!(service.ext.len(), 2);
    assert!(std::ptr::eq(service.ext[0], a));
    assert!(std::ptr::eq(service.ext[1], b));
    let mut ctx = Context::new();
    service.inject(&mut ctx);
    assert_eq!(ctx.get().unwrap().content, "b");
    assert!(ctx.get_state().is_none());
}

#[test]
fn no_static_values_leave_the_context_alone() {
    let service = StaticExtensionsLayer::<Content>::new(Vec::new()).layer(());
    let mut ctx = Context::new();
    service.inject(&mut ctx);
    assert!(ctx.get().is_none());
    ctx.insert(Content { content: String::from("kept") });
    service.inject(&mut ctx);
    assert_eq!(ctx.get().unwrap().content, "kept");
}

/// Runs `stage` on the extensions, handed over as a store and taken back.
fn through<T>(ext: &mut Extensions, stage: impl FnOnce(&mut Store<T>)) {
    let mut store = Store::new(std::mem::take(ext));
    stage(&mut store);
    *ext = store.into_inner();
}

/// What a handler extracts from the extensions as the static value.
fn extracted<T: Send + Sync + 'static>(ext: &Extensions) -> Result<Static<T>, Rejection> {
    Static::from_request_parts(&Store::new(ext.clone()))
}

#[test]
fn static_service_over_a_request() {
    let data: &'static Data = leak(Data("West"));
    let encoder: &'static B64<Standard> = leak(B64::<Standard>::new());

    let mut request = http::Request::new(());
    through(request.extensions_mut(), |store| StaticLayer::new(data).layer(()).call(store));
    through(request.extensions_mut(), |store| StaticLayer::new(encoder).layer(()).call(store));

    let Static(found) = extracted::<Data>(request.extensions()).unwrap();
    let Static(engine) = extracted::<B64<Standard>>(request.extensions()).unwrap();
    assert!(std::ptr::eq(found, data));
    assert!(std::ptr::eq(engine, encoder));
    let res = engine.encode(found.0.as_bytes()).unwrap();
    assert_eq!(res, "V2VzdA==");
    assert_eq!("West", encoder.decode(res.as_bytes()).unwrap());
}

#[test]
fn a_store_without_the_value_is_a_wiring_error() {
    let mut ext = Extensions::new();
    let rejection = extracted::<Data>(&ext).err().unwrap();
    assert_eq!(rejection.status, 500);
    assert_eq!(rejection.message, "Unknown error occurred!");

    ext.insert(Data("not a handle"));
    ext.insert(Static::new(leak(7_u32)));
    assert!(extracted::<Data>(&ext).is_err());
    assert_eq!(*extracted::<u32>(&ext).unwrap(), 7);
}

#[test]
fn the_store_holds_the_handle_after_the_stage() {
    let data: &'static Data = leak(Data("West"));
    let mut store = Store::new(Extensions::new());
    assert!(Static::<Data>::from_request_parts(&store).is_err());
    AddStatic::new((), data).call(&mut store);
    assert!(std::ptr::eq(store.get().unwrap().0, data));
    assert!(std::ptr::eq(Static::from_request_parts(&store).unwrap().0, data));
    assert!(store.get_state().is_none());
}

#[test]
fn a_later_static_stage_replaces_the_stored_handle() {
    let first: &'static Data = leak(Data("first"));
    let second: &'static Data = leak(Data("second"));
    let mut ext = Extensions::new();
    ext.insert(5_i32);
    through(&mut ext, |store| AddStatic::new((), first).call(store));
    assert!(std::ptr::eq(extracted::<Data>(&ext).unwrap().0, first));
    through(&mut ext, |store| AddStatic::new((), second).call(store));
    assert!(std::ptr::eq(extracted::<Data>(&ext).unwrap().0, second));
    assert_eq!(ext.get::<i32>(), Some(&5));
    assert_eq!(ext.len(), 2);
}

#[test]
fn cloned_static_values_reach_the_store() {
    let a: &'static Content = leak(Content { content: String::from("a") });
    let b: &'static Content = leak(Content { content: String::from("West") });
    let mut ext = Extensions::new();
    through(&mut ext, |store| StaticExtensionsLayer::new(vec![a, b]).layer(()).call(store));
    assert_eq!(ext.get::<Content>().unwrap().content, "West");
    assert_eq!(ext.len(), 1);

    through(&mut ext, |store| {
        StaticExtensionsLayer::<Content>::new(Vec::new()).layer(()).call(store)
    });
    assert_eq!(ext.get::<Content>().unwrap().content, "West");
    assert_eq!(ext.len(), 1);
}

#[test]
fn a_static_stage_leaves_the_other_entries_alone() {
    let data: &'static Data = leak(Data("West"));
    let mut ext = Extensions::new();
    let mut state = auth_pipeline::state::State::default();
    state.allow_refresh = true;
    state.set_state("login", "true");
    ext.insert(state);
    ext.insert(11_u16);

    let mut store: Store<Static<Data>> = Store::new(ext);
    assert!(!store.is_one_slot());
    AddStatic::new((), data).call(&mut store);
    let kept = store.get_state().unwrap();
    assert!(kept.allow_refresh);
    assert_eq!(kept.get_state("login"), Some("true"));
    let ext = store.into_inner();
    assert_eq!(ext.get::<u16>(), Some(&11));
    assert_eq!(ext.len(), 3);

    let content: &'static Content = leak(Content { content: String::from("c") });
    let mut store: Store<Content> = Store::new(ext);
    StaticExtensionsLayer::new(vec![content]).layer(()).call(&mut store);
    let kept = store.get_state().unwrap();
    assert!(kept.allow_refresh);
    assert_eq!(kept.get_state("login"), Some("true"));
    assert_eq!(store.get().unwrap().content, "c");
    assert_eq!(store.into_inner().len(), 4);
}
