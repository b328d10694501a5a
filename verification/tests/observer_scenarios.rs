//! The observer scenarios, driven synchronously: a small network of verified
//! publisher and observer states, where delivering an update runs the
//! observer's transform and passes on what it publishes.

use std::any::Any;
use std::sync::Arc;

use n_observer::{CachedPublisher, Observer, ObserverError};

type AnyArc = Arc<dyn Any + Send + Sync>;
type Transform = Box<dyn Fn(Vec<AnyArc>) -> Result<AnyArc, ObserverError>>;

struct Network {
    observers: Vec<Observer<dyn Any + Send + Sync, usize>>,
    transforms: Vec<Transform>,
}

impl Network {
    fn new() -> Self {
        Network {
            observers: Vec::new(),
            transforms: Vec::new(),
        }
    }

    fn add(&mut self, observer: Observer<dyn Any + Send + Sync, usize>, transform: Transform) -> usize {
        self.observers.push(observer);
        self.transforms.push(transform);
        self.observers.len() - 1
    }

    /// Hands `inputs` to observer `id`, runs its transform when it is ready,
    /// and delivers what it publishes to its own subscribers.
    fn deliver(&mut self, id: usize, inputs: Vec<Option<AnyArc>>) {
        let ready = self.observers[id].update(inputs);
        if let Some(values) = ready {
            let result = (self.transforms[id])(values);
            let updates = self.observers[id].apply_transform(result);
            let targets: Vec<usize> = self.observers[id].observers().iter().map(|(_, o)| *o).collect();
            for (target, update) in targets.into_iter().zip(updates) {
                self.deliver(target, update);
            }
        }
    }

    fn notify(&mut self, publisher: &mut CachedPublisher<dyn Any + Send + Sync, usize>, data: AnyArc) {
        let updates = publisher.notify(data);
        let targets: Vec<usize> = publisher.observers().iter().map(|(_, o)| *o).collect();
        for (target, update) in targets.into_iter().zip(updates) {
            self.deliver(target, update);
        }
    }

    /// A single-input observer subscribed to `publisher` at input 0.
    fn observe(&mut self, publisher: &mut CachedPublisher<dyn Any + Send + Sync, usize>, transform: Transform) -> usize {
        let id = self.add(Observer::new(), transform);
        let initial = publisher.add_observer(id, 0);
        self.deliver(id, vec![initial]);
        id
    }

    /// A single-input observer subscribed to observer `parent` at input 0.
    fn observe_observer(&mut self, parent: usize, transform: Transform) -> usize {
        let id = self.add(Observer::new(), transform);
        let initial = self.observers[parent].add_observer(id, 0);
        self.deliver(id, vec![initial]);
        id
    }

    fn get<T: Send + Sync + 'static>(&self, id: usize) -> Option<Arc<T>> {
        self.observers[id].get().map(|v| v.downcast::<T>().unwrap())
    }
}

fn identity() -> Transform {
    Box::new(|data: Vec<AnyArc>| Ok(data[0].clone()))
}

fn string_len() -> Transform {
    Box::new(|data: Vec<AnyArc>| {
        let len = data[0].clone().downcast::<String>().unwrap().len();
        Ok(Arc::new(len) as AnyArc)
    })
}

fn text(s: &str) -> AnyArc {
    Arc::new(s.to_string())
}

#[test]
fn test_observer_single() {
    let mut publisher = CachedPublisher::new(None);
    let mut net = Network::new();
    let observer = net.observe(&mut publisher, identity());

    net.notify(&mut publisher, text("Hello"));

    assert_eq!(net.get::<String>(observer), Some(Arc::new("Hello".to_string())));
}

#[test]
fn test_observer_single_multiple_pub() {
    let mut publisher = CachedPublisher::new(None);
    let mut net = Network::new();
    let observer = net.observe(&mut publisher, identity());

    net.notify(&mut publisher, text("Hello"));
    assert_eq!(net.get::<String>(observer), Some(Arc::new("Hello".to_string())));

    net.notify(&mut publisher, text("World"));
    assert_eq!(net.get::<String>(observer), Some(Arc::new("World".to_string())));
}

#[test]
fn test_observer_multiple() {
    let mut publisher = CachedPublisher::new(None);
    let mut net = Network::new();
    let observer1 = net.observe(&mut publisher, identity());
    let observer2 = net.observe(&mut publisher, identity());

    net.notify(&mut publisher, text("Hello"));

    assert_eq!(net.get::<String>(observer1), Some(Arc::new("Hello".to_string())));
    assert_eq!(net.get::<String>(observer2), Some(Arc::new("Hello".to_string())));
}

#[test]
fn test_observer_chained() {
    let mut publisher = CachedPublisher::new(None);
    let mut net = Network::new();
    let observer1 = net.observe(&mut publisher, identity());
    let observer2 = net.observe_observer(observer1, identity());

    net.notify(&mut publisher, text("Hello"));

    assert_eq!(net.get::<String>(observer1), Some(Arc::new("Hello".to_string())));
    assert_eq!(net.get::<String>(observer2), Some(Arc::new("Hello".to_string())));
}

#[test]
fn test_observer_multiple_publishers() {
    let mut publisher1 = CachedPublisher::new(None);
    let mut publisher2 = CachedPublisher::new(None);
    let mut net = Network::new();
    let observer = net.add(
        Observer::new_multiparent(2),
        Box::new(|data: Vec<AnyArc>| {
            let data1 = data[0].clone().downcast::<String>().unwrap().len();
            let data2 = data[1].clone().downcast::<String>().unwrap().len();
            Ok(Arc::new(data1 + data2) as AnyArc)
        }),
    );
    let initial1 = publisher1.add_observer(observer, 0);
    let initial2 = publisher2.add_observer(observer, 1);
    net.deliver(observer, vec![initial1, initial2]);

    net.notify(&mut publisher1, text("Hello"));
    net.notify(&mut publisher2, text("World!"));

    assert_eq!(net.get::<usize>(observer), Some(Arc::new(11)));

    // Notify again with different data
    net.notify(&mut publisher1, text("Centconf"));

    assert_eq!(net.get::<usize>(observer), Some(Arc::new(14)));
}

#[test]
fn test_observer_with_transform() {
    let mut publisher = CachedPublisher::new(None);
    let mut net = Network::new();
    let observer = net.observe(&mut publisher, string_len());

    net.notify(&mut publisher, text("Hello"));

    assert_eq!(net.get::<usize>(observer), Some(Arc::new(5)));
}

#[test]
fn test_observer_chain_middle_dropped() {
    let mut publisher = CachedPublisher::new(None);
    let mut net = Network::new();
    let observer1 = net.observe(&mut publisher, string_len());
    let observer2 = net.observe_observer(
        observer1,
        Box::new(|data: Vec<AnyArc>| {
            let value = *data[0].clone().downcast::<usize>().unwrap();
            Ok(Arc::new(value * 2) as AnyArc)
        }),
    );

    net.notify(&mut publisher, text("Hello"));
    assert_eq!(net.get::<usize>(observer2), Some(Arc::new(10)));

    // The middle observer's state stays in the network, as its subscriber
    // holds on to it, so the chain keeps working.
    net.notify(&mut publisher, text("World!"));
    assert_eq!(net.get::<usize>(observer2), Some(Arc::new(12)));
}

#[test]
fn test_observer_initial_value() {
    let mut publisher = CachedPublisher::new(Some(text("Init")));
    let mut net = Network::new();
    let observer = net.observe(&mut publisher, identity());

    // Observer should pick up the initial cached value without an explicit notify
    assert_eq!(net.get::<String>(observer), Some(Arc::new("Init".to_string())));

    // After notifying with a new value, observer should update
    net.notify(&mut publisher, text("New"));
    assert_eq!(net.get::<String>(observer), Some(Arc::new("New".to_string())));
}

#[test]
fn test_observer_transform_error_single() {
    let mut publisher = CachedPublisher::new(None);
    let mut net = Network::new();
    // Transform returns Err for short strings, Ok for longer ones
    let observer = net.observe(
        &mut publisher,
        Box::new(|data: Vec<AnyArc>| {
            let s = data[0].clone().downcast::<String>().unwrap();
            if s.len() < 10 {
                Err(ObserverError::TransformError)
            } else {
                Ok(Arc::new(s.len()) as AnyArc)
            }
        }),
    );

    // Short string -> transform returns Err -> observer should not update
    net.notify(&mut publisher, text("short"));
    assert_eq!(net.get::<usize>(observer), None);

    // Long string -> transform returns Ok -> observer should update
    net.notify(&mut publisher, text("a very long string"));
    assert_eq!(net.get::<usize>(observer), Some(Arc::new(18usize)));
}

#[test]
fn test_observer_transform_error_multiparent() {
    let mut publisher1 = CachedPublisher::new(None);
    let mut publisher2 = CachedPublisher::new(None);
    let mut net = Network::new();
    // Transform always returns Err
    let observer = net.add(
        Observer::new_multiparent(2),
        Box::new(|_data: Vec<AnyArc>| Err(ObserverError::TransformError)),
    );
    let initial1 = publisher1.add_observer(observer, 0);
    let initial2 = publisher2.add_observer(observer, 1);
    net.deliver(observer, vec![initial1, initial2]);

    // Notify both publishers; since transform errors, observer must not update
    net.notify(&mut publisher1, text("Hello"));
    net.notify(&mut publisher2, text("World"));

    assert_eq!(net.get::<usize>(observer), None);
}

#[test]
fn test_py_observer_empty_update() {
    let mut publisher = CachedPublisher::new(Some(Arc::new(100i32) as AnyArc));
    let mut net = Network::new();
    let observer = net.observe(&mut publisher, identity());
    assert_eq!(net.get::<i32>(observer), Some(Arc::new(100)));

    // Send an empty update
    net.deliver(observer, Vec::new());

    // The observer's value is unchanged
    assert_eq!(net.get::<i32>(observer), Some(Arc::new(100)));
}

#[test]
fn test_py_multi_input_observer() {
    let mut publisher1 = CachedPublisher::new(Some(Arc::new(10i32) as AnyArc));
    let mut publisher2 = CachedPublisher::new(Some(Arc::new(20i32) as AnyArc));
    let mut net = Network::new();
    let observer = net.add(
        Observer::new_multiparent(2),
        Box::new(|values: Vec<AnyArc>| {
            let sum: i32 = values
                .into_iter()
                .map(|v| *v.downcast::<i32>().unwrap())
                .sum();
            Ok(Arc::new(sum) as AnyArc)
        }),
    );
    let initial1 = publisher1.add_observer(observer, 0);
    let initial2 = publisher2.add_observer(observer, 1);
    net.deliver(observer, vec![initial1, initial2]);

    assert_eq!(net.get::<i32>(observer), Some(Arc::new(10 + 20)));

    // Notify the first publisher to change its value
    net.notify(&mut publisher1, Arc::new(30i32));

    assert_eq!(net.get::<i32>(observer), Some(Arc::new(30 + 20)));
}

#[test]
fn test_observer_fut() {
    let mut publisher = CachedPublisher::new(Some(Arc::new(5i32) as AnyArc));
    let mut net = Network::new();
    let observer = net.observe(&mut publisher, identity());

    let value = net.get::<i32>(observer);
    assert!(value.is_some());
    assert_eq!(*value.unwrap(), 5);
}

#[test]
fn test_observer_new_from_observer() {
    let mut publisher = CachedPublisher::new(Some(Arc::new(10i32) as AnyArc));
    let mut net = Network::new();
    let observer = net.observe(&mut publisher, identity());
    let new_observer = net.observe_observer(observer, identity());

    let new_observer_value = net.get::<i32>(new_observer);
    assert!(new_observer_value.is_some());
    assert_eq!(*new_observer_value.unwrap(), 10);

    // Notify the original publisher to change its value
    net.notify(&mut publisher, Arc::new(30i32));

    // The new observer now reflects the updated value
    let updated = net.get::<i32>(new_observer);
    assert!(updated.is_some());
    assert_eq!(*updated.unwrap(), 30);
}

#[test]
fn test_cffi_publisher_to_py_observer() {
    let mut publisher = CachedPublisher::new(Some(Arc::new(100i32) as AnyArc));
    let mut net = Network::new();
    let native_observer = net.observe(&mut publisher, identity());

    let result = net.get::<i32>(native_observer);
    assert!(result.is_some());
    assert_eq!(*result.unwrap(), 100);

    // Notify the publisher to change its value
    net.notify(&mut publisher, Arc::new(200i32));

    let updated_result = net.get::<i32>(native_observer);
    assert!(updated_result.is_some());
    assert_eq!(*updated_result.unwrap(), 200);

    // Chain observers
    let deref_observer = net.observe_observer(
        native_observer,
        Box::new(|data: Vec<AnyArc>| {
            let value = *data[0].clone().downcast::<i32>().expect("Value must be i32");
            Ok(Arc::new(value) as AnyArc)
        }),
    );

    let deref_observer_value = net.get::<i32>(deref_observer);
    assert!(deref_observer_value.is_some());
    assert_eq!(*deref_observer_value.unwrap(), 200);

    // Notify the original publisher to change its value again
    net.notify(&mut publisher, Arc::new(300i32));

    let updated_result = net.get::<i32>(deref_observer);
    assert!(updated_result.is_some());
    assert_eq!(*updated_result.unwrap(), 300);
}
